use frame_core::conversion::error::{ConversionError, ErrorKind};
use frame_core::conversion::manager::{
    cancel_outcome, ConversionManager, ManagerAction, ManagerMessage,
};
use frame_core::conversion::types::{ConversionConfig, ConversionTask, MetadataConfig};

fn config() -> ConversionConfig {
    ConversionConfig {
        container: "mp4".into(),
        video_codec: "libx264".into(),
        video_bitrate_mode: "crf".into(),
        video_bitrate: "5000".into(),
        audio_codec: "aac".into(),
        audio_bitrate: "128".into(),
        audio_channels: "original".into(),
        audio_volume: 10000,
        selected_audio_tracks: vec![],
        selected_subtitle_tracks: vec![],
        subtitle_burn_path: None,
        resolution: "original".into(),
        custom_width: None,
        custom_height: None,
        scaling_algorithm: "bicubic".into(),
        fps: "original".into(),
        crf: 23,
        quality: 50,
        preset: "medium".into(),
        start_time: None,
        end_time: None,
        audio_normalize: false,
        metadata: MetadataConfig::default(),
        rotation: "0".into(),
        flip_horizontal: false,
        flip_vertical: false,
        ml_upscale: None,
        hw_decode: false,
        crop: None,
        nvenc_spatial_aq: false,
        nvenc_temporal_aq: false,
        videotoolbox_allow_sw: false,
    }
}

fn task(id: &str) -> ConversionTask {
    ConversionTask {
        id: id.into(),
        file_path: format!("/in/{}.mov", id),
        output_name: None,
        config: config(),
    }
}

fn spawned(actions: &[ManagerAction]) -> Vec<String> {
    actions
        .iter()
        .filter_map(|a| match a {
            ManagerAction::Spawn(t) => Some(t.id.clone()),
            _ => None,
        })
        .collect()
}

fn terminated(actions: &[ManagerAction]) -> Vec<u32> {
    actions
        .iter()
        .filter_map(|a| match a {
            ManagerAction::Terminate(pid) => Some(*pid),
            _ => None,
        })
        .collect()
}

fn enqueue(manager: &mut ConversionManager, id: &str) -> Vec<ManagerAction> {
    manager.handle_message(ManagerMessage::Enqueue(task(id)))
}

#[test]
fn new_manager_has_default_limit() {
    let manager = ConversionManager::new();
    assert_eq!(manager.current_max_concurrency(), 2);
    assert_eq!(manager.running_count(), 0);
    assert_eq!(manager.queued_count(), 0);
}

#[test]
fn second_task_waits_until_first_completes() {
    let mut manager = ConversionManager::new();
    manager.update_max_concurrency(1).unwrap();
    assert_eq!(spawned(&enqueue(&mut manager, "A")), vec!["A"]);
    assert!(spawned(&enqueue(&mut manager, "B")).is_empty());
    assert!(manager.is_running("A"));
    assert!(manager.is_waiting("B"));
    assert!(!manager.is_running("B"));

    let started = manager.handle_message(ManagerMessage::TaskStarted("A".into(), 41));
    assert!(started.is_empty());
    assert!(manager.is_waiting("B"));
    assert_eq!(manager.active_process("A"), Some(41));

    let done = manager.handle_message(ManagerMessage::TaskCompleted("A".into()));
    assert_eq!(spawned(&done), vec!["B"]);
    assert!(manager.is_running("B"));
    assert!(!manager.is_waiting("B"));
    assert!(!manager.is_running("A"));
    assert_eq!(manager.active_process("A"), None);
}

#[test]
fn zero_concurrency_is_rejected() {
    let mut manager = ConversionManager::new();
    manager.update_max_concurrency(3).unwrap();
    let err = manager.update_max_concurrency(0).unwrap_err();
    assert_eq!(err.kind(), ErrorKind::InvalidInput);
    assert_eq!(err.message(), "Invalid input: Max concurrency must be at least 1");
    assert_eq!(manager.current_max_concurrency(), 3);
}

#[test]
fn running_never_exceeds_the_limit() {
    let mut manager = ConversionManager::new();
    let ids = ["a", "b", "c", "d", "e"];
    for id in ids {
        enqueue(&mut manager, id);
        assert!(manager.running_count() <= manager.current_max_concurrency());
    }
    assert_eq!(manager.running_count(), 2);
    assert_eq!(manager.queued_count(), 3);

    manager.update_max_concurrency(4).unwrap();
    assert_eq!(manager.running_count(), 2);
    let more = manager.process_queue();
    assert_eq!(spawned(&more), vec!["c", "d"]);
    assert_eq!(manager.running_count(), 4);

    manager.update_max_concurrency(1).unwrap();
    assert_eq!(manager.running_count(), 4);
    for id in ["a", "b", "c"] {
        let actions = manager.handle_message(ManagerMessage::TaskCompleted(id.into()));
        assert!(spawned(&actions).is_empty());
    }
    assert_eq!(manager.running_count(), 1);
    let actions = manager.handle_message(ManagerMessage::TaskCompleted("d".into()));
    assert_eq!(spawned(&actions), vec!["e"]);
    assert_eq!(manager.running_count(), 1);
}

#[test]
fn enqueue_of_a_known_id_is_dropped() {
    let mut manager = ConversionManager::new();
    manager.update_max_concurrency(1).unwrap();
    assert_eq!(spawned(&enqueue(&mut manager, "a")), vec!["a"]);
    assert!(enqueue(&mut manager, "a").is_empty());
    assert_eq!(manager.running_count(), 1);
    assert_eq!(manager.queued_count(), 0);
    assert!(enqueue(&mut manager, "b").is_empty());
    assert!(enqueue(&mut manager, "b").is_empty());
    assert_eq!(manager.queued_count(), 1);
    let done = manager.handle_message(ManagerMessage::TaskCompleted("a".into()));
    assert_eq!(spawned(&done), vec!["b"]);
    let done = manager.handle_message(ManagerMessage::TaskCompleted("b".into()));
    assert!(done.is_empty());
    assert_eq!(manager.running_count(), 0);
}

#[test]
fn cancelled_queued_task_never_starts() {
    let mut manager = ConversionManager::new();
    manager.update_max_concurrency(1).unwrap();
    enqueue(&mut manager, "a");
    enqueue(&mut manager, "b");
    enqueue(&mut manager, "c");
    let plan = manager.cancel_task("b");
    assert_eq!(plan.terminate, None);
    assert_eq!(plan.temp_dir, "frame_upscale_b");
    assert!(manager.is_cancelled("b"));
    let done = manager.handle_message(ManagerMessage::TaskCompleted("a".into()));
    assert_eq!(spawned(&done), vec!["c"]);
    assert!(!manager.is_waiting("b"));
    assert!(!manager.is_running("b"));
    assert!(!manager.is_cancelled("b"));
    let done = manager.handle_message(ManagerMessage::TaskCompleted("c".into()));
    assert!(done.is_empty());
}

#[test]
fn cancel_before_started_terminates_the_process() {
    let mut manager = ConversionManager::new();
    manager.update_max_concurrency(1).unwrap();
    enqueue(&mut manager, "a");
    enqueue(&mut manager, "b");
    let plan = manager.cancel_task("a");
    assert_eq!(plan.terminate, None);
    let actions = manager.handle_message(ManagerMessage::TaskStarted("a".into(), 77));
    assert_eq!(terminated(&actions), vec![77]);
    assert!(matches!(actions[0], ManagerAction::Terminate(77)));
    assert_eq!(spawned(&actions), vec!["b"]);
    assert!(!manager.is_running("a"));
    assert_eq!(manager.active_process("a"), None);

    let late = manager.handle_message(ManagerMessage::TaskStarted("a".into(), 0));
    assert!(terminated(&late).is_empty());
    let failed = manager.handle_message(ManagerMessage::TaskError(
        "a".into(),
        ConversionError::Worker("Process terminated with code None".into()),
    ));
    assert!(!manager.is_cancelled("a"));
    assert_eq!(failed.len(), 2);
}

#[test]
fn cancel_of_a_running_task_names_its_process() {
    let mut manager = ConversionManager::new();
    enqueue(&mut manager, "a");
    manager.handle_message(ManagerMessage::TaskStarted("a".into(), 9));
    let plan = manager.cancel_task("a");
    assert_eq!(plan.terminate, Some(9));
    assert_eq!(plan.temp_dir, "frame_upscale_a");
    manager.handle_message(ManagerMessage::TaskStarted("a".into(), 0));
    assert_eq!(manager.active_process("a"), None);
}

#[test]
fn pause_and_resume_need_a_known_process() {
    let mut manager = ConversionManager::new();
    let err = manager.pause_task("ghost").unwrap_err();
    assert_eq!(err.kind(), ErrorKind::TaskNotFound);
    assert_eq!(err.message(), "Task not found: ghost");
    enqueue(&mut manager, "a");
    assert!(manager.pause_task("a").is_err());
    manager.handle_message(ManagerMessage::TaskStarted("a".into(), 0));
    assert_eq!(manager.resume_task("a").unwrap_err().message(), "Task not found: a");
    manager.handle_message(ManagerMessage::TaskStarted("a".into(), 1234));
    assert_eq!(manager.pause_task("a").unwrap(), 1234);
    assert_eq!(manager.resume_task("a").unwrap(), 1234);
    manager.handle_message(ManagerMessage::TaskCompleted("a".into()));
    assert!(manager.pause_task("a").is_err());
}

#[test]
fn task_error_is_reported_and_frees_the_slot() {
    let mut manager = ConversionManager::new();
    manager.update_max_concurrency(1).unwrap();
    enqueue(&mut manager, "a");
    enqueue(&mut manager, "b");
    let actions = manager.handle_message(ManagerMessage::TaskError(
        "a".into(),
        ConversionError::Worker("Process terminated with code Some(1)".into()),
    ));
    assert_eq!(actions.len(), 3);
    match &actions[0] {
        ManagerAction::Log(p) => {
            assert_eq!(p.id, "a");
            assert_eq!(
                p.line,
                "[ERROR] Worker process error: Process terminated with code Some(1)"
            );
        }
        _ => panic!("expected a log line"),
    }
    match &actions[1] {
        ManagerAction::Error(p) => {
            assert_eq!(p.id, "a");
            assert_eq!(p.error, "Worker process error: Process terminated with code Some(1)");
        }
        _ => panic!("expected an error report"),
    }
    assert_eq!(spawned(&actions), vec!["b"]);
}

#[test]
fn enqueue_clears_a_stale_mark() {
    let mut manager = ConversionManager::new();
    manager.cancel_task("a");
    assert!(manager.is_cancelled("a"));
    assert_eq!(spawned(&enqueue(&mut manager, "a")), vec!["a"]);
    assert!(!manager.is_cancelled("a"));
}

#[test]
fn every_error_kind_has_its_prefix() {
    assert_eq!(ConversionError::Shell("a".into()).message(), "Shell command failed: a");
    assert_eq!(ConversionError::Io("b".into()).message(), "IO error: b");
    assert_eq!(ConversionError::Json("c".into()).message(), "JSON parsing failed: c");
    assert_eq!(ConversionError::Channel("d".into()).message(), "Internal channel error: d");
    assert_eq!(ConversionError::Probe("e".into()).message(), "Probe failed: e");
    assert_eq!(ConversionError::Worker("f".into()).message(), "Worker process error: f");
    assert_eq!(ConversionError::InvalidInput("g".into()).message(), "Invalid input: g");
    assert_eq!(ConversionError::TaskNotFound("h".into()).message(), "Task not found: h");
    assert_eq!(ConversionError::Json("c".into()).kind(), ErrorKind::Json);
}

#[test]
fn cancel_without_a_process_is_task_not_found() {
    let mut manager = ConversionManager::new();
    let plan = manager.cancel_task("ghost");
    assert_eq!(plan.terminate, None);
    assert_eq!(plan.temp_dir, "frame_upscale_ghost");
    assert!(manager.is_cancelled("ghost"));
    let err = cancel_outcome("ghost", &plan, None).unwrap_err();
    assert_eq!(err.kind(), ErrorKind::TaskNotFound);
    assert_eq!(err.message(), "Task not found: ghost");

    enqueue(&mut manager, "a");
    let plan = manager.cancel_task("a");
    assert!(manager.is_cancelled("a"));
    assert_eq!(cancel_outcome("a", &plan, None).unwrap_err().message(), "Task not found: a");

    let mut manager = ConversionManager::new();
    enqueue(&mut manager, "b");
    manager.handle_message(ManagerMessage::TaskStarted("b".into(), 0));
    let plan = manager.cancel_task("b");
    assert_eq!(plan.terminate, None);
    assert_eq!(
        cancel_outcome("b", &plan, Some(Ok(()))).unwrap_err().message(),
        "Task not found: b"
    );
}

#[test]
fn cancel_with_a_process_follows_the_termination() {
    let mut manager = ConversionManager::new();
    enqueue(&mut manager, "a");
    manager.handle_message(ManagerMessage::TaskStarted("a".into(), 31));
    let plan = manager.cancel_task("a");
    assert_eq!(plan.terminate, Some(31));
    assert!(cancel_outcome("a", &plan, Some(Ok(()))).is_ok());
    assert!(cancel_outcome("a", &plan, None).is_ok());
    let failed = cancel_outcome(
        "a",
        &plan,
        Some(Err(ConversionError::Shell("Failed to send SIGKILL".into()))),
    )
    .unwrap_err();
    assert_eq!(failed.kind(), ErrorKind::Shell);
    assert_eq!(failed.message(), "Shell command failed: Failed to send SIGKILL");
}
