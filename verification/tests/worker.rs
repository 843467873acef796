use frame_core::conversion::args::PathKind;
use frame_core::conversion::error::{ConversionError, ErrorKind};
use frame_core::conversion::manager::ManagerMessage;
use frame_core::conversion::process::{
    nt_entry_point, nt_status_outcome, signal_outcome, unix_signal_plan, windows_failure,
    ControlRequest, Signal, SignalStep, WindowsFailure,
};
use frame_core::conversion::progress::{
    decode_band, default_frame_rate, encode_band, estimate_total_frames,
    expected_active_duration, progress_percent, resolve_expected_duration, resolve_total_frames,
    upscale_band,
};
use frame_core::conversion::types::{ConversionConfig, FrameRate, MetadataConfig};
use frame_core::conversion::upscale::{
    band_of, compute_upscale_threads, is_success, resolve_upscale_mode, stage_frame_progress,
    PipelineAction, PipelineEvent, Stage, UpscalePipeline,
};
use frame_core::conversion::worker::{
    conclude, finished_message, prepare_enqueue, split_log_lines, split_raw_lines,
    started_message, take_whole_lines, uses_upscale_pipeline, DurationTracker, WorkerEvent,
};

fn config() -> ConversionConfig {
    ConversionConfig {
        container: "mp4".into(),
        video_codec: "libx264".into(),
        video_bitrate_mode: "crf".into(),
        video_bitrate: "5000".into(),
        audio_codec: "aac".into(),
        audio_bitrate: "128".into(),
        audio_channels: "original".into(),
        audio_volume: 10000,
        selected_audio_tracks: vec![],
        selected_subtitle_tracks: vec![],
        subtitle_burn_path: None,
        resolution: "original".into(),
        custom_width: None,
        custom_height: None,
        scaling_algorithm: "bicubic".into(),
        fps: "original".into(),
        crf: 23,
        quality: 50,
        preset: "medium".into(),
        start_time: None,
        end_time: None,
        audio_normalize: false,
        metadata: MetadataConfig::default(),
        rotation: "0".into(),
        flip_horizontal: false,
        flip_vertical: false,
        ml_upscale: None,
        hw_decode: false,
        crop: None,
        nvenc_spatial_aq: false,
        nvenc_temporal_aq: false,
        videotoolbox_allow_sw: false,
    }
}

fn logs(actions: &[PipelineAction]) -> Vec<String> {
    actions
        .iter()
        .filter_map(|a| match a {
            PipelineAction::Log(l) => Some(l.clone()),
            _ => None,
        })
        .collect()
}

fn progress(actions: &[PipelineAction]) -> Vec<u32> {
    actions
        .iter()
        .filter_map(|a| match a {
            PipelineAction::Progress(p) => Some(*p),
            _ => None,
        })
        .collect()
}

#[test]
fn trim_aware_duration() {
    let active = resolve_expected_duration(Some("00:01:30"), Some("00:02:45"), Some("00:10:00"));
    assert_eq!(active, 75_000_000);
    assert_eq!(active as f64 / 1_000_000.0, 75.0);
    assert_eq!(resolve_expected_duration(Some("00:01:30"), Some("00:02:45"), None), 75_000_000);
    assert_eq!(
        resolve_expected_duration(Some("00:01:30"), Some("00:02:45"), Some("99:00:00")),
        75_000_000
    );
}

#[test]
fn expected_duration_falls_back() {
    assert_eq!(resolve_expected_duration(None, None, Some("00:10:00")), 600_000_000);
    assert_eq!(resolve_expected_duration(Some("00:01:00"), None, Some("00:10:00")), 540_000_000);
    assert_eq!(resolve_expected_duration(None, Some("30"), Some("00:10:00")), 30_000_000);
    assert_eq!(resolve_expected_duration(Some("00:20:00"), None, Some("00:10:00")), 0);
    assert_eq!(resolve_expected_duration(Some("later"), Some("soon"), Some("N/A")), 0);
    assert_eq!(resolve_expected_duration(Some("later"), Some("soon"), Some("8")), 8_000_000);
    assert_eq!(expected_active_duration(Some(5), Some(3), 100), 0);
    assert_eq!(expected_active_duration(None, None, 100), 100);
    assert_eq!(expected_active_duration(Some(u64::MAX), None, 0), 0);
}

#[test]
fn progress_is_monotone_and_capped() {
    let total = 600_000_000;
    let positions = [0u64, 1, 30_000_000, 299_999_999, 300_000_000, 600_000_000, 900_000_000, u64::MAX];
    let mut last = 0;
    for position in positions {
        let p = progress_percent(position, total).unwrap();
        assert!(p >= last);
        assert!(p <= 100_000);
        last = p;
    }
    assert_eq!(progress_percent(30_000_000, total), Some(5_000));
    assert_eq!(progress_percent(299_999_999, total), Some(49_999));
    assert_eq!(progress_percent(600_000_000, total), Some(100_000));
    assert_eq!(progress_percent(u64::MAX, 1), Some(100_000));
    assert_eq!(progress_percent(5, 0), None);
}

#[test]
fn stage_bands_tile_the_scale() {
    assert_eq!(decode_band().progress(0, 10), Some(0));
    assert_eq!(decode_band().progress(5, 10), Some(2_500));
    assert_eq!(decode_band().progress(10, 10), Some(5_000));
    assert_eq!(decode_band().progress(20, 10), Some(5_000));
    assert_eq!(upscale_band().progress(0, 10), Some(5_000));
    assert_eq!(upscale_band().progress(1, 3), Some(33_333));
    assert_eq!(upscale_band().progress(10, 10), Some(90_000));
    assert_eq!(upscale_band().progress(u32::MAX, 1), Some(90_000));
    assert_eq!(encode_band().progress(0, 10), Some(90_000));
    assert_eq!(encode_band().progress(5, 10), Some(95_000));
    assert_eq!(encode_band().progress(9, 10), Some(99_000));
    assert_eq!(encode_band().progress(10, 10), Some(100_000));
    assert_eq!(encode_band().progress(11, 10), Some(100_000));
    assert_eq!(encode_band().progress(1, 0), None);
    assert_eq!(band_of(Stage::Decode), Some(decode_band()));
    assert_eq!(band_of(Stage::Upscale), Some(upscale_band()));
    assert_eq!(band_of(Stage::Encode), Some(encode_band()));
    assert_eq!(band_of(Stage::Count), None);
    assert_eq!(band_of(Stage::Finished), None);
    assert_eq!(decode_band().start + decode_band().span, upscale_band().start);
    assert_eq!(upscale_band().start + upscale_band().span, encode_band().start);
    assert_eq!(encode_band().start + encode_band().span, 100_000);
}

#[test]
fn frame_estimates_round_up() {
    let ntsc = FrameRate { numerator: 30_000_000_000, denominator: 1_001_000_000 };
    assert_eq!(estimate_total_frames(1_001_000, ntsc), 30);
    assert_eq!(estimate_total_frames(1_001_001, ntsc), 31);
    assert_eq!(estimate_total_frames(75_000_000, default_frame_rate()), 2250);
    assert_eq!(estimate_total_frames(1, default_frame_rate()), 1);
    assert_eq!(estimate_total_frames(0, default_frame_rate()), 0);
    assert_eq!(
        estimate_total_frames(u64::MAX, FrameRate { numerator: u64::MAX, denominator: 1 }),
        u32::MAX
    );
    assert_eq!(estimate_total_frames(5, FrameRate { numerator: 1, denominator: 0 }), 0);
    assert_eq!(resolve_total_frames(Some(12), 40), 12);
    assert_eq!(resolve_total_frames(Some(0), 40), 40);
    assert_eq!(resolve_total_frames(None, 40), 40);
}

#[test]
fn log_lines_are_cut_and_trimmed() {
    let lines = split_log_lines("  first \r second\n\n\r\n third\u{a0}");
    assert_eq!(lines, vec!["first", "second", "third"]);
    assert!(split_log_lines("").is_empty());
    assert!(split_log_lines(" \r\n ").is_empty());
    assert_eq!(split_log_lines("one"), vec!["one"]);
}

#[test]
fn tracker_prefers_the_expected_duration() {
    let mut tracker = DurationTracker::new(100_000_000);
    assert_eq!(tracker.on_line("  Duration: 00:05:00.00, start: 0.0"), None);
    assert_eq!(tracker.discovered, Some(300_000_000));
    assert_eq!(tracker.on_line("frame= 1 time=00:00:25.00 bitrate=1"), Some(25_000));
    assert_eq!(tracker.on_line("time=00:03:00.00"), Some(100_000));
}

#[test]
fn tracker_discovers_the_duration() {
    let mut tracker = DurationTracker::new(0);
    assert_eq!(tracker.on_line("time=00:00:25.00"), None);
    assert_eq!(tracker.on_line("Duration: N/A"), None);
    assert_eq!(tracker.discovered, None);
    assert_eq!(tracker.on_line("Duration: 00:00:50.00"), None);
    assert_eq!(tracker.on_line("Duration: 00:10:00.00"), None);
    assert_eq!(tracker.discovered, Some(50_000_000));
    assert_eq!(tracker.on_line("time=00:00:25.00"), Some(50_000));
    assert_eq!(tracker.on_line("time=soon"), None);
    assert_eq!(tracker.line_progress(Some("10"), None), Some(20_000));
    assert_eq!(tracker.line_progress(Some("x"), Some("1")), None);
    assert_eq!(tracker.line_progress(None, None), None);
}

#[test]
fn chunk_becomes_events_in_order() {
    let mut tracker = DurationTracker::new(0);
    let events = tracker.on_chunk("Duration: 00:00:10.00\rframe=1 time=00:00:05.00\n\nbye");
    assert_eq!(events.len(), 4);
    assert!(matches!(&events[0], WorkerEvent::Log(l) if l == "Duration: 00:00:10.00"));
    assert!(matches!(&events[1], WorkerEvent::Log(l) if l == "frame=1 time=00:00:05.00"));
    assert!(matches!(&events[2], WorkerEvent::Progress(50_000)));
    assert!(matches!(&events[3], WorkerEvent::Log(l) if l == "bye"));
    assert!(tracker.on_chunk("\n").is_empty());
}

#[test]
fn single_process_conclusion() {
    assert!(conclude(Some(0)).is_ok());
    let failed = conclude(Some(1)).unwrap_err();
    assert_eq!(failed.kind(), ErrorKind::Worker);
    assert_eq!(
        failed.message(),
        "Worker process error: Process terminated with code Some(1)"
    );
    assert_eq!(
        conclude(None).unwrap_err().message(),
        "Worker process error: Process terminated with code None"
    );
    assert_eq!(
        conclude(Some(-9)).unwrap_err().message(),
        "Worker process error: Process terminated with code Some(-9)"
    );
    assert_eq!(
        conclude(Some(i32::MIN)).unwrap_err().message(),
        "Worker process error: Process terminated with code Some(-2147483648)"
    );
}

#[test]
fn upscale_mode_selects_the_pipeline() {
    let mut c = config();
    assert!(!uses_upscale_pipeline(&c));
    c.ml_upscale = Some("none".into());
    assert!(!uses_upscale_pipeline(&c));
    c.ml_upscale = Some("".into());
    assert!(!uses_upscale_pipeline(&c));
    c.ml_upscale = Some("esrgan-2x".into());
    assert!(uses_upscale_pipeline(&c));
    assert_eq!(resolve_upscale_mode("esrgan-2x").unwrap(), ("2", "realesr-animevideov3-x2"));
    assert_eq!(resolve_upscale_mode("esrgan-4x").unwrap(), ("4", "realesr-animevideov3-x4"));
    let err = resolve_upscale_mode("esrgan-8x").unwrap_err();
    assert_eq!(err.message(), "Invalid input: Invalid upscale mode: esrgan-8x");
}

#[test]
fn upscale_threads_follow_the_output_size() {
    assert_eq!(compute_upscale_threads(1920, 1080, 2, 8), "4:2:4");
    assert_eq!(compute_upscale_threads(1920, 1080, 4, 8), "4:1:4");
    assert_eq!(compute_upscale_threads(640, 360, 2, 3), "2:4:2");
    assert_eq!(compute_upscale_threads(960, 540, 2, 1), "1:4:1");
    assert_eq!(compute_upscale_threads(3840, 2160, 1, 0), "1:2:1");
    assert_eq!(compute_upscale_threads(u32::MAX, u32::MAX, u32::MAX, u32::MAX), "4:1:4");
}

#[test]
fn pipeline_runs_through_its_stages() {
    let mut pipeline = UpscalePipeline::new(100);
    assert_eq!(pipeline.stage(), Stage::Decode);

    let actions = pipeline.step(PipelineEvent::Line("  frame=   50 fps=120 q=-0.0 \n".into()));
    assert_eq!(logs(&actions), vec!["[DECODE] frame=   50 fps=120 q=-0.0"]);
    assert_eq!(progress(&actions), vec![2_500]);
    let actions = pipeline.step(PipelineEvent::Line("frame=  500".into()));
    assert_eq!(progress(&actions), vec![5_000]);
    let actions = pipeline.step(PipelineEvent::Line("".into()));
    assert_eq!(logs(&actions), vec!["[DECODE] "]);
    assert!(progress(&actions).is_empty());

    let actions = pipeline.step(PipelineEvent::Exited(Some(0)));
    assert!(matches!(actions[..], [PipelineAction::CountFrames]));
    assert_eq!(pipeline.stage(), Stage::Count);
    assert!(pipeline.step(PipelineEvent::Line("late".into())).is_empty());

    let actions = pipeline.step(PipelineEvent::FramesCounted(Some(4)));
    assert!(matches!(actions[..], [PipelineAction::StartUpscaler]));
    assert_eq!(pipeline.total_frames(), 4);
    assert_eq!(pipeline.stage(), Stage::Upscale);

    let actions = pipeline.step(PipelineEvent::Line("25.00%".into()));
    assert!(actions.is_empty());
    let actions = pipeline.step(PipelineEvent::Line("in/frame_1.png -> out/frame_1.png done".into()));
    assert_eq!(logs(&actions), vec!["[UPSCALE] in/frame_1.png -> out/frame_1.png done"]);
    assert_eq!(progress(&actions), vec![26_250]);
    let actions = pipeline.step(PipelineEvent::Line("a \u{2192} b".into()));
    assert_eq!(progress(&actions), vec![47_500]);
    let actions = pipeline.step(PipelineEvent::Line("loading model".into()));
    assert_eq!(logs(&actions), vec!["[UPSCALE] loading model"]);
    assert!(progress(&actions).is_empty());
    pipeline.step(PipelineEvent::Line("c -> d".into()));
    pipeline.step(PipelineEvent::Line("e -> f".into()));
    let actions = pipeline.step(PipelineEvent::Line("g -> h".into()));
    assert_eq!(progress(&actions), vec![90_000]);

    let actions = pipeline.step(PipelineEvent::Exited(Some(0)));
    assert!(matches!(actions[..], [PipelineAction::StartEncoder]));
    assert_eq!(pipeline.stage(), Stage::Encode);

    let actions = pipeline.step(PipelineEvent::Line("frame=2 fps=1".into()));
    assert_eq!(logs(&actions), vec!["[ENCODE] frame=2 fps=1"]);
    assert_eq!(progress(&actions), vec![95_000]);
    let actions = pipeline.step(PipelineEvent::Line("frame=4".into()));
    assert_eq!(progress(&actions), vec![100_000]);
    let actions = pipeline.step(PipelineEvent::Line("frame=9".into()));
    assert_eq!(progress(&actions), vec![100_000]);

    let actions = pipeline.step(PipelineEvent::Exited(Some(0)));
    assert!(matches!(actions[..], [PipelineAction::RemoveTempDir, PipelineAction::Complete]));
    assert_eq!(pipeline.stage(), Stage::Finished);
    assert!(pipeline.step(PipelineEvent::Exited(Some(0))).is_empty());
    assert!(pipeline.step(PipelineEvent::Closed).is_empty());
}

fn failure(actions: &[PipelineAction]) -> String {
    assert_eq!(actions.len(), 2);
    assert!(matches!(actions[0], PipelineAction::RemoveTempDir));
    match &actions[1] {
        PipelineAction::Fail(e) => {
            assert_eq!(e.kind(), ErrorKind::Worker);
            e.message()
        }
        _ => panic!("expected a failure"),
    }
}

#[test]
fn pipeline_failures_name_their_stage() {
    let mut pipeline = UpscalePipeline::new(0);
    assert!(progress(&pipeline.step(PipelineEvent::Line("frame=3".into()))).is_empty());
    let actions = pipeline.step(PipelineEvent::Exited(Some(1)));
    assert_eq!(failure(&actions), "Worker process error: Frame extraction failed");
    assert_eq!(pipeline.stage(), Stage::Finished);

    let mut pipeline = UpscalePipeline::new(0);
    assert_eq!(
        failure(&pipeline.step(PipelineEvent::Closed)),
        "Worker process error: Frame extraction failed"
    );

    let mut pipeline = UpscalePipeline::new(7);
    pipeline.step(PipelineEvent::Exited(Some(0)));
    pipeline.step(PipelineEvent::FramesCounted(None));
    assert_eq!(pipeline.total_frames(), 7);
    pipeline.step(PipelineEvent::Line("vkCreateInstance failed -9\n".into()));
    assert_eq!(
        failure(&pipeline.step(PipelineEvent::Exited(None))),
        "Worker process error: Upscaling failed: vkCreateInstance failed -9\n"
    );

    let mut pipeline = UpscalePipeline::new(7);
    pipeline.step(PipelineEvent::Exited(Some(0)));
    pipeline.step(PipelineEvent::FramesCounted(Some(0)));
    assert_eq!(
        failure(&pipeline.step(PipelineEvent::Closed)),
        "Worker process error: Upscaling failed: "
    );

    let mut pipeline = UpscalePipeline::new(7);
    pipeline.step(PipelineEvent::Exited(Some(0)));
    pipeline.step(PipelineEvent::FramesCounted(Some(2)));
    pipeline.step(PipelineEvent::Exited(Some(0)));
    assert_eq!(
        failure(&pipeline.step(PipelineEvent::Exited(Some(69)))),
        "Worker process error: Encoder failed with code Some(69)"
    );

    let mut pipeline = UpscalePipeline::new(7);
    pipeline.step(PipelineEvent::Exited(Some(0)));
    pipeline.step(PipelineEvent::FramesCounted(Some(2)));
    pipeline.step(PipelineEvent::Exited(Some(0)));
    assert_eq!(
        failure(&pipeline.step(PipelineEvent::Closed)),
        "Worker process error: Encoder terminated unexpectedly before reporting exit status"
    );
}

#[test]
fn upscale_progress_without_a_total_is_silent() {
    let mut pipeline = UpscalePipeline::new(0);
    pipeline.step(PipelineEvent::Exited(Some(0)));
    pipeline.step(PipelineEvent::FramesCounted(None));
    let actions = pipeline.step(PipelineEvent::Line("a -> b".into()));
    assert_eq!(logs(&actions), vec!["[UPSCALE] a -> b"]);
    assert!(progress(&actions).is_empty());
}

#[test]
fn frame_numbers_are_read_strictly() {
    assert_eq!(stage_frame_progress(decode_band(), Some("5"), 10), Some(2_500));
    assert_eq!(stage_frame_progress(decode_band(), Some("+5"), 10), Some(2_500));
    assert_eq!(stage_frame_progress(decode_band(), Some("4294967295"), 10), Some(5_000));
    assert_eq!(stage_frame_progress(decode_band(), Some("4294967296"), 10), None);
    assert_eq!(stage_frame_progress(decode_band(), Some("-5"), 10), None);
    assert_eq!(stage_frame_progress(decode_band(), Some("+"), 10), None);
    assert_eq!(stage_frame_progress(decode_band(), Some(""), 10), None);
    assert_eq!(stage_frame_progress(decode_band(), Some("\u{0665}"), 10), None);
    assert_eq!(stage_frame_progress(decode_band(), None, 10), None);
    assert_eq!(stage_frame_progress(decode_band(), Some("5"), 0), None);
    assert!(is_success(Some(0)));
    assert!(!is_success(Some(2)));
    assert!(!is_success(None));
}

#[test]
fn unix_signals_for_each_request() {
    assert_eq!(
        unix_signal_plan(ControlRequest::Suspend),
        vec![SignalStep { signal: Signal::Stop, required: true }]
    );
    assert_eq!(
        unix_signal_plan(ControlRequest::Resume),
        vec![SignalStep { signal: Signal::Continue, required: true }]
    );
    assert_eq!(
        unix_signal_plan(ControlRequest::Terminate),
        vec![
            SignalStep { signal: Signal::Continue, required: false },
            SignalStep { signal: Signal::Kill, required: true },
        ]
    );
    let stop = SignalStep { signal: Signal::Stop, required: true };
    assert!(signal_outcome(stop, 0).is_ok());
    let err = signal_outcome(stop, -1).unwrap_err();
    assert_eq!(err.kind(), ErrorKind::Shell);
    assert_eq!(err.message(), "Shell command failed: Failed to send SIGSTOP");
    let cont = SignalStep { signal: Signal::Continue, required: true };
    assert_eq!(
        signal_outcome(cont, 1).unwrap_err().message(),
        "Shell command failed: Failed to send SIGCONT"
    );
    let kill = SignalStep { signal: Signal::Kill, required: true };
    assert_eq!(
        signal_outcome(kill, -1).unwrap_err().message(),
        "Shell command failed: Failed to send SIGKILL"
    );
    let nudge = SignalStep { signal: Signal::Continue, required: false };
    assert!(signal_outcome(nudge, -1).is_ok());
}

#[test]
fn windows_failures_become_shell_errors() {
    assert_eq!(nt_entry_point(true), "NtSuspendProcess");
    assert_eq!(nt_entry_point(false), "NtResumeProcess");
    assert!(nt_status_outcome(0).is_ok());
    assert_eq!(
        nt_status_outcome(-1073741790).unwrap_err().message(),
        "Shell command failed: NtSuspendProcess/NtResumeProcess failed with status: -1073741790"
    );
    assert_eq!(
        windows_failure(WindowsFailure::OpenProcess("denied".into())).message(),
        "Shell command failed: Failed to open process: denied"
    );
    assert_eq!(
        windows_failure(WindowsFailure::OpenForTermination("denied".into())).message(),
        "Shell command failed: Failed to open process for termination: denied"
    );
    assert_eq!(
        windows_failure(WindowsFailure::LibraryHandle("gone".into())).message(),
        "Shell command failed: Failed to get ntdll handle: gone"
    );
    assert_eq!(
        windows_failure(WindowsFailure::EntryPointMissing).message(),
        "Shell command failed: Could not find NtSuspendProcess/NtResumeProcess in ntdll"
    );
}

#[test]
fn worker_messages_follow_the_outcome() {
    assert!(matches!(
        started_message("a", 5),
        ManagerMessage::TaskStarted(id, 5) if id == "a"
    ));
    assert!(matches!(
        finished_message("a", Ok(())),
        ManagerMessage::TaskCompleted(id) if id == "a"
    ));
    assert!(matches!(
        finished_message("a", Err(ConversionError::Worker("w".into()))),
        ManagerMessage::TaskError(id, ConversionError::Worker(w)) if id == "a" && w == "w"
    ));
}

#[test]
fn rejected_requests_never_become_messages() {
    let ok = prepare_enqueue("a".into(), "/f".into(), PathKind::File, None, config());
    assert!(matches!(ok, Ok(ManagerMessage::Enqueue(t)) if t.id == "a" && t.file_path == "/f"));
    let missing = prepare_enqueue("a".into(), "/f".into(), PathKind::Missing, None, config());
    assert_eq!(
        missing.err().unwrap().message(),
        "Invalid input: Input file does not exist: /f"
    );
}

#[test]
fn whole_lines_leave_the_buffer() {
    let mut buffer = b"one\ntwo\rthr".to_vec();
    assert_eq!(take_whole_lines(&mut buffer), Some(b"one\ntwo\r".to_vec()));
    assert_eq!(buffer, b"thr".to_vec());
    assert_eq!(take_whole_lines(&mut buffer), None);
    assert_eq!(buffer, b"thr".to_vec());
    buffer.extend_from_slice(b"ee\n");
    assert_eq!(take_whole_lines(&mut buffer), Some(b"three\n".to_vec()));
    assert!(buffer.is_empty());
    assert_eq!(take_whole_lines(&mut buffer), None);
    let mut only = b"\n".to_vec();
    assert_eq!(take_whole_lines(&mut only), Some(b"\n".to_vec()));
    assert!(only.is_empty());
}

#[test]
fn raw_lines_keep_their_white_space() {
    assert_eq!(split_raw_lines(" a \r\n\nb\t"), vec![" a ", "b\t"]);
    assert_eq!(split_raw_lines("\r\n"), Vec::<String>::new());
    assert_eq!(split_raw_lines("x"), vec!["x"]);
}

#[test]
fn pipeline_takes_a_chunk_line_by_line() {
    let mut pipeline = UpscalePipeline::new(10);
    let actions = pipeline.on_chunk("frame=  2 fps=1\rframe=  4 fps=1\r\n\nbanner");
    assert_eq!(
        logs(&actions),
        vec!["[DECODE] frame=  2 fps=1", "[DECODE] frame=  4 fps=1", "[DECODE] banner"]
    );
    assert_eq!(progress(&actions), vec![1_000, 2_000]);
    assert!(pipeline.on_chunk("").is_empty());
    pipeline.step(PipelineEvent::Exited(Some(0)));
    assert!(pipeline.on_chunk("late line\n").is_empty());
    pipeline.step(PipelineEvent::FramesCounted(Some(2)));
    let actions = pipeline.on_chunk("a -> b\n50%\nc -> d\n");
    assert_eq!(logs(&actions), vec!["[UPSCALE] a -> b", "[UPSCALE] c -> d"]);
    assert_eq!(progress(&actions), vec![47_500, 90_000]);
}
