use frame_core::spatial::commands::{
    check_spatial_models, download_progress, downloading_name, encoder_to_checkpoint,
    get_checkpoint_dir, validate_spatial_input, DownloadTracker,
};
use frame_core::spatial::error::SpatialError;
use frame_core::spatial::manager::{SpatialAction, SpatialManager, SpatialMessage};
use frame_core::spatial::types::{SpatialConfig, SpatialTask};
use frame_core::spatial::worker::{
    build_spatial_args, conclude, interpret_report, map_depth_progress, stage_progress,
    ToolAction, ToolReport,
};

fn config(size: &str) -> SpatialConfig {
    SpatialConfig {
        encoder_size: size.into(),
        max_disparity: 30,
        skip_downscale: false,
        duration: None,
        enabled: true,
    }
}

fn task(id: &str) -> SpatialTask {
    SpatialTask { id: id.into(), file_path: format!("/in/{}.mov", id), config: config("s") }
}

fn spawned(actions: &[SpatialAction]) -> Vec<String> {
    actions
        .iter()
        .filter_map(|a| match a {
            SpatialAction::Spawn(t) => Some(t.id.clone()),
            _ => None,
        })
        .collect()
}

fn report(event: &str) -> ToolReport {
    ToolReport { event: Some(event.into()), stage: None, pct: None, output: None, message: None }
}

#[test]
fn spatial_jobs_run_one_at_a_time() {
    let mut manager = SpatialManager::new();
    assert_eq!(spawned(&manager.handle_message(SpatialMessage::Enqueue(task("a")))), vec!["a"]);
    assert!(manager.handle_message(SpatialMessage::Enqueue(task("b"))).is_empty());
    assert!(manager.handle_message(SpatialMessage::Enqueue(task("b"))).is_empty());
    assert!(manager.handle_message(SpatialMessage::Enqueue(task("a"))).is_empty());
    assert!(manager.handle_message(SpatialMessage::Enqueue(task("c"))).is_empty());
    assert_eq!(manager.queued_count(), 2);
    assert_eq!(manager.running_id().map(|s| s.as_str()), Some("a"));
    assert_eq!(manager.cancel_task("b"), None);
    let done = manager.handle_message(SpatialMessage::TaskCompleted("a".into()));
    assert_eq!(spawned(&done), vec!["c"]);
    assert_eq!(manager.queued_count(), 0);
    let done = manager.handle_message(SpatialMessage::TaskCompleted("c".into()));
    assert!(done.is_empty());
    assert!(manager.running_id().is_none());
}

#[test]
fn spatial_cancel_race_terminates() {
    let mut manager = SpatialManager::new();
    manager.handle_message(SpatialMessage::Enqueue(task("a")));
    manager.handle_message(SpatialMessage::Enqueue(task("b")));
    assert_eq!(manager.cancel_task("a"), None);
    let actions = manager.handle_message(SpatialMessage::TaskStarted("a".into(), 12));
    assert!(matches!(actions[0], SpatialAction::Terminate(12)));
    assert_eq!(spawned(&actions), vec!["b"]);
    manager.handle_message(SpatialMessage::TaskStarted("b".into(), 13));
    assert_eq!(manager.cancel_task("b"), Some(13));
    let actions = manager.handle_message(SpatialMessage::TaskError(
        "b".into(),
        SpatialError::Worker("spatial-maker exited with code -1".into()),
    ));
    assert_eq!(actions.len(), 2);
    match &actions[0] {
        SpatialAction::Log(p) => assert_eq!(
            p.line,
            "[ERROR] Worker process error: spatial-maker exited with code -1"
        ),
        _ => panic!("expected a log line"),
    }
    match &actions[1] {
        SpatialAction::Error(p) => {
            assert_eq!(p.error, "Worker process error: spatial-maker exited with code -1")
        }
        _ => panic!("expected an error report"),
    }
}

#[test]
fn spatial_tool_arguments() {
    let mut t = task("a");
    assert_eq!(
        build_spatial_args(&t),
        vec![
            "tool", "run", "spatial-maker", "/in/a.mov", "--json-progress", "--encoder", "s",
            "--max-disparity", "30",
        ]
    );
    t.config.skip_downscale = true;
    t.config.duration = Some("12.5".into());
    let args = build_spatial_args(&t);
    assert_eq!(args[9..], ["--skip-downscale", "--duration", "12.5"]);
}

#[test]
fn spatial_stage_progress() {
    assert_eq!(stage_progress("downscale"), 5_000);
    assert_eq!(stage_progress("depth_stereo"), 10_000);
    assert_eq!(stage_progress("audio_mux"), 85_000);
    assert_eq!(stage_progress("spatial_make"), 90_000);
    assert_eq!(stage_progress("other"), 0);
    assert_eq!(map_depth_progress(0), 10_000);
    assert_eq!(map_depth_progress(50_000), 47_500);
    assert_eq!(map_depth_progress(100_000), 85_000);
    assert_eq!(map_depth_progress(u32::MAX), 3_221_235_471);
}

#[test]
fn spatial_reports_are_interpreted() {
    let mut stage = report("stage");
    stage.stage = Some("audio_mux".into());
    assert!(matches!(
        interpret_report(&stage),
        Some(ToolAction::Progress { progress: 85_000, stage }) if stage == "audio_mux"
    ));
    assert!(matches!(
        interpret_report(&report("stage")),
        Some(ToolAction::Progress { progress: 0, stage }) if stage == "unknown"
    ));
    let mut progress = report("progress");
    assert!(interpret_report(&progress).is_none());
    progress.pct = Some(20_000);
    assert!(matches!(
        interpret_report(&progress),
        Some(ToolAction::Progress { progress: 25_000, stage }) if stage == "depth_stereo"
    ));
    let mut done = report("done");
    assert!(matches!(interpret_report(&done), Some(ToolAction::Completed(p)) if p.is_empty()));
    done.output = Some("/out/a.mov".into());
    assert!(matches!(interpret_report(&done), Some(ToolAction::Completed(p)) if p == "/out/a.mov"));
    let mut error = report("error");
    assert!(matches!(
        interpret_report(&error),
        Some(ToolAction::Log(l)) if l == "[SPATIAL ERROR] Unknown error"
    ));
    error.message = Some("no gpu".into());
    assert!(matches!(
        interpret_report(&error),
        Some(ToolAction::Log(l)) if l == "[SPATIAL ERROR] no gpu"
    ));
    assert!(interpret_report(&report("heartbeat")).is_none());
    let mut silent = report("x");
    silent.event = None;
    assert!(interpret_report(&silent).is_none());
}

#[test]
fn spatial_conclusion() {
    assert!(conclude(true, Some(0)).is_ok());
    assert_eq!(
        conclude(false, Some(3)).unwrap_err().message(),
        "Worker process error: spatial-maker exited with code 3"
    );
    assert_eq!(
        conclude(false, None).unwrap_err().message(),
        "Worker process error: spatial-maker exited with code -1"
    );
}

#[test]
fn spatial_requests_are_validated() {
    assert!(validate_spatial_input("/in/a.mov", true, &config("m")).is_ok());
    assert_eq!(
        validate_spatial_input("", true, &config("m")).unwrap_err().message(),
        "Invalid input: File path is empty"
    );
    assert_eq!(
        validate_spatial_input("/in/a.mov", false, &config("m")).unwrap_err().message(),
        "Invalid input: File not found: /in/a.mov"
    );
    assert_eq!(
        validate_spatial_input("/in/a.mov", true, &config("b")).unwrap_err().message(),
        "Invalid input: Invalid encoder size 'b'. Must be s, m, or l"
    );
}

#[test]
fn spatial_checkpoints() {
    assert_eq!(
        encoder_to_checkpoint("m"),
        Some((
            "depth_anything_v2_vitb.pth",
            "https://huggingface.co/depth-anything/Depth-Anything-V2-Base/resolve/main/depth_anything_v2_vitb.pth"
        ))
    );
    assert_eq!(encoder_to_checkpoint("s").unwrap().0, "depth_anything_v2_vits.pth");
    assert_eq!(encoder_to_checkpoint("l").unwrap().0, "depth_anything_v2_vitl.pth");
    assert_eq!(encoder_to_checkpoint("b"), None);
    assert_eq!(get_checkpoint_dir(Some("/models"), Some("/home/u")), "/models/checkpoints");
    assert_eq!(get_checkpoint_dir(None, Some("/home/u")), "/home/u/.spatial-maker/checkpoints");
    assert_eq!(get_checkpoint_dir(None, None), "./.spatial-maker/checkpoints");
    let files = vec!["depth_anything_v2_vitb.pth".to_string()];
    let available = check_spatial_models(&files);
    assert!(!available.small);
    assert!(available.medium);
    assert!(!available.large);
    assert_eq!(downloading_name("a.pth"), "a.pth.downloading");
}

#[test]
fn download_progress_is_reported_on_change() {
    assert_eq!(download_progress(0, 1000), 0);
    assert_eq!(download_progress(4, 1000), 0);
    assert_eq!(download_progress(5, 1000), 1);
    assert_eq!(download_progress(994, 1000), 99);
    assert_eq!(download_progress(995, 1000), 100);
    assert_eq!(download_progress(1000, 1000), 100);
    assert_eq!(download_progress(3000, 1000), 300);
    assert_eq!(download_progress(5, 0), 0);
    assert_eq!(download_progress(u64::MAX, u64::MAX), 100);
    let mut tracker = DownloadTracker::new();
    assert_eq!(tracker.on_chunk(0, 1000), Some(0));
    assert_eq!(tracker.on_chunk(4, 1000), None);
    assert_eq!(tracker.on_chunk(5, 1000), Some(1));
    assert_eq!(tracker.on_chunk(14, 1000), None);
    assert_eq!(tracker.on_chunk(1000, 1000), Some(100));
    let mut unknown = DownloadTracker::new();
    assert_eq!(unknown.on_chunk(10, 0), Some(0));
    assert_eq!(unknown.on_chunk(20, 0), None);
}
