use frame_core::conversion::patterns::{capture_duration, capture_frame, capture_time};
use frame_core::conversion::progress::progress_percent;
use frame_core::conversion::types::FrameRate;
use frame_core::conversion::utils::{
    is_audio_only_container, is_nvenc_codec, is_videotoolbox_codec, map_nvenc_preset,
    parse_frame_rate_string, parse_probe_bitrate, parse_time,
};

fn seconds(time: Option<u64>) -> Option<f64> {
    time.map(|micros| micros as f64 / 1_000_000.0)
}

fn fps(rate: Option<FrameRate>) -> Option<f64> {
    rate.map(|r| r.numerator as f64 / r.denominator as f64)
}

fn kbps(rate: Option<u64>) -> Option<f64> {
    rate.map(|millionths| millionths as f64 / 1_000_000.0)
}

#[test]
fn time_regex_extracts_progress_time() {
    let ffmpeg_output = "frame=  120 fps= 30 q=23.0 size=    1024kB time=00:00:04.00 bitrate= 2097.2kbits/s speed=1.50x";
    let captured = capture_time(ffmpeg_output).unwrap();
    assert_eq!(captured.as_str(), "00:00:04.00");
}

#[test]
fn time_regex_handles_long_duration() {
    let output = "time=02:15:33.45 bitrate=1024kbits/s";
    let captured = capture_time(output).unwrap();
    let time_str = captured.as_str();
    assert_eq!(time_str, "02:15:33.45");
    assert_eq!(seconds(parse_time(time_str)), Some(8133.45));
}

#[test]
fn time_regex_no_match_on_invalid() {
    let invalid_outputs = ["frame=100 fps=30 q=23.0", "time=invalid", ""];
    for output in invalid_outputs {
        assert!(capture_time(output).is_none(), "Should not match: {}", output);
    }
}

#[test]
fn duration_regex_extracts_total_duration() {
    let ffmpeg_output = "  Duration: 00:05:30.50, start: 0.000000, bitrate: 5000 kb/s";
    let captured = capture_duration(ffmpeg_output).unwrap();
    assert_eq!(captured.as_str(), "00:05:30.50");
}

#[test]
fn duration_regex_real_ffmpeg_output() {
    let output = "Duration: 01:42:15.24, start: 0.000000, bitrate: 8500 kb/s";
    let captured = capture_duration(output).unwrap();
    assert_eq!(seconds(parse_time(captured.as_str())), Some(6135.24));
}

#[test]
fn frame_regex_extracts_frame_count() {
    let outputs = [
        ("frame=  100 fps=30.0", "100"),
        ("frame=1500 fps=60", "1500"),
        ("frame=    1 fps=24", "1"),
        ("frame=999999 fps=29.97", "999999"),
    ];
    for (output, expected) in outputs {
        let captured = capture_frame(output).unwrap();
        assert_eq!(captured.as_str(), expected);
    }
}

#[test]
fn frame_regex_upscale_pipeline_output() {
    let decode_output = "frame=  450 fps=120 q=-0.0 Lsize=N/A time=00:00:15.00 bitrate=N/A speed=4.00x";
    let captured = capture_frame(decode_output).unwrap();
    assert_eq!(captured.as_str(), "450");
}

#[test]
fn parse_time_flexible_formats() {
    assert_eq!(seconds(parse_time("30.5")), Some(30.5));
    assert_eq!(seconds(parse_time("120")), Some(120.0));

    assert_eq!(seconds(parse_time("01:30")), Some(90.0));
    assert_eq!(seconds(parse_time("10:05.5")), Some(605.5));

    assert_eq!(seconds(parse_time("01:00:00")), Some(3600.0));
    assert_eq!(seconds(parse_time("00:01:00.00")), Some(60.0));
}

#[test]
fn parse_time_invalid_formats() {
    assert_eq!(seconds(parse_time("")), None);
    assert_eq!(seconds(parse_time("abc")), None);
    assert_eq!(seconds(parse_time("12:34:56:78")), None);
}

#[test]
fn progress_calculation_realistic() {
    let duration_line = "Duration: 00:10:00.00, start: 0.000000";
    let progress_line = "frame=  900 fps=30 time=00:00:30.00 bitrate=2048kbits/s";

    let total = capture_duration(duration_line)
        .and_then(|m| parse_time(m.as_str()))
        .unwrap();

    let current = capture_time(progress_line)
        .and_then(|m| parse_time(m.as_str()))
        .unwrap();

    let progress = progress_percent(current, total).unwrap() as f64 / 1000.0;
    assert!((progress - 5.0).abs() < 0.01);
}

#[test]
fn frame_rate_fractional() {
    assert_eq!(fps(parse_frame_rate_string(Some("30000/1001"))), Some(29.97002997002997));
    assert_eq!(fps(parse_frame_rate_string(Some("24000/1001"))), Some(23.976023976023978));
    assert_eq!(fps(parse_frame_rate_string(Some("60/1"))), Some(60.0));
    assert_eq!(fps(parse_frame_rate_string(Some("25/1"))), Some(25.0));
}

#[test]
fn frame_rate_direct_value() {
    assert_eq!(fps(parse_frame_rate_string(Some("30"))), Some(30.0));
    assert_eq!(fps(parse_frame_rate_string(Some("23.976"))), Some(23.976));
    assert_eq!(fps(parse_frame_rate_string(Some("59.94"))), Some(59.94));
}

#[test]
fn frame_rate_edge_cases() {
    assert_eq!(fps(parse_frame_rate_string(None)), None);
    assert_eq!(fps(parse_frame_rate_string(Some(""))), None);
    assert_eq!(fps(parse_frame_rate_string(Some("N/A"))), None);
    assert_eq!(fps(parse_frame_rate_string(Some("n/a"))), None);
    assert_eq!(fps(parse_frame_rate_string(Some("  "))), None);
    assert_eq!(fps(parse_frame_rate_string(Some("0/0"))), None);
}

#[test]
fn bitrate_parsing() {
    assert_eq!(kbps(parse_probe_bitrate(Some("5000000"))), Some(5000.0));
    assert_eq!(kbps(parse_probe_bitrate(Some("128000"))), Some(128.0));
    assert_eq!(kbps(parse_probe_bitrate(Some("320000"))), Some(320.0));
}

#[test]
fn bitrate_edge_cases() {
    assert_eq!(kbps(parse_probe_bitrate(None)), None);
    assert_eq!(kbps(parse_probe_bitrate(Some("N/A"))), None);
    assert_eq!(kbps(parse_probe_bitrate(Some(""))), None);
    assert_eq!(kbps(parse_probe_bitrate(Some("0"))), None);
    assert_eq!(kbps(parse_probe_bitrate(Some("-1000"))), None);
}

#[test]
fn audio_only_containers() {
    let audio_containers = ["mp3", "wav", "flac", "aac", "m4a", "MP3", "FLAC"];
    let video_containers = ["mp4", "mkv", "webm", "mov", "avi"];

    for c in audio_containers {
        assert!(is_audio_only_container(c), "{} should be audio-only", c);
    }
    for c in video_containers {
        assert!(!is_audio_only_container(c), "{} should not be audio-only", c);
    }
}

#[test]
fn nvenc_codec_detection() {
    assert!(is_nvenc_codec("h264_nvenc"));
    assert!(is_nvenc_codec("hevc_nvenc"));
    assert!(is_nvenc_codec("av1_nvenc"));
    assert!(!is_nvenc_codec("libx264"));
    assert!(!is_nvenc_codec("h264_videotoolbox"));
}

#[test]
fn videotoolbox_codec_detection() {
    assert!(is_videotoolbox_codec("h264_videotoolbox"));
    assert!(is_videotoolbox_codec("hevc_videotoolbox"));
    assert!(!is_videotoolbox_codec("libx264"));
    assert!(!is_videotoolbox_codec("h264_nvenc"));
}

#[test]
fn nvenc_preset_mapping() {
    assert_eq!(map_nvenc_preset("fast"), "fast");
    assert_eq!(map_nvenc_preset("medium"), "medium");
    assert_eq!(map_nvenc_preset("slow"), "slow");
    assert_eq!(map_nvenc_preset("ultrafast"), "fast");
    assert_eq!(map_nvenc_preset("superfast"), "fast");
    assert_eq!(map_nvenc_preset("veryfast"), "fast");
    assert_eq!(map_nvenc_preset("veryslow"), "slow");
    assert_eq!(map_nvenc_preset("slower"), "slow");
    assert_eq!(map_nvenc_preset("p1"), "p1");
    assert_eq!(map_nvenc_preset("p7"), "p7");
    assert_eq!(map_nvenc_preset("unknown"), "medium");
}

#[test]
fn time_parsing_examples() {
    assert_eq!(seconds(parse_time("00:00:10.50")), Some(10.5));
    assert_eq!(seconds(parse_time("01:00:00.00")), Some(3600.0));
    assert_eq!(seconds(parse_time("00:01:05.10")), Some(65.1));
    assert_eq!(seconds(parse_time("01:30")), Some(90.0));
    assert_eq!(seconds(parse_time("30.5")), Some(30.5));
    assert_eq!(parse_time("invalid"), None);
    assert_eq!(parse_time("12:34:56:78"), None);
    assert_eq!(parse_time("abc"), None);
    assert_eq!(parse_time(""), None);
}

#[test]
fn time_parsing_exact_millionths() {
    assert_eq!(parse_time("00:00:10.50"), Some(10_500_000));
    assert_eq!(parse_time("1:02:03.000004"), Some(3_723_000_004));
    assert_eq!(parse_time("0.1234567"), Some(123_456));
    assert_eq!(parse_time("5."), Some(5_000_000));
    assert_eq!(parse_time(".5"), Some(500_000));
    assert_eq!(parse_time("."), None);
    assert_eq!(parse_time("1:2: 3 "), Some(3_723_000_000));
    assert_eq!(parse_time(" 1:2:3"), None);
    assert_eq!(parse_time("1::3"), None);
    assert_eq!(parse_time("-5"), None);
    assert_eq!(parse_time("1e3"), None);
    assert_eq!(parse_time("99999999999999999999"), None);
    assert_eq!(parse_time("18446744073709"), Some(18_446_744_073_709_000_000));
    assert_eq!(parse_time("18446744073710"), None);
    assert_eq!(parse_time("5124095576030431:00:00"), None);
}

#[test]
fn frame_rate_exact_ratio() {
    assert_eq!(
        parse_frame_rate_string(Some("30000/1001")),
        Some(FrameRate { numerator: 30_000_000_000, denominator: 1_001_000_000 })
    );
    assert_eq!(
        parse_frame_rate_string(Some(" 25 / 1 ")),
        Some(FrameRate { numerator: 25_000_000, denominator: 1_000_000 })
    );
    assert_eq!(
        parse_frame_rate_string(Some("23.976")),
        Some(FrameRate { numerator: 23_976_000, denominator: 1_000_000 })
    );
    assert_eq!(parse_frame_rate_string(Some("30/0")), None);
    assert_eq!(parse_frame_rate_string(Some("30/")), None);
    assert_eq!(parse_frame_rate_string(Some("/30")), None);
    assert_eq!(parse_frame_rate_string(Some("N/a")), None);
    assert_eq!(parse_frame_rate_string(Some("fast")), None);
}

#[test]
fn bitrate_exact_values() {
    assert_eq!(parse_probe_bitrate(Some(" 128000 ")), Some(128_000_000));
    assert_eq!(parse_probe_bitrate(Some("1")), Some(1_000));
    assert_eq!(parse_probe_bitrate(Some("0.0005")), Some(0));
    assert_eq!(parse_probe_bitrate(Some("0.0")), None);
    assert_eq!(parse_probe_bitrate(Some("abc")), None);
}

#[test]
fn patterns_take_the_leftmost_match() {
    assert_eq!(capture_time("time=1 time=2").unwrap(), "1");
    assert_eq!(capture_time("time=   12:34").unwrap(), "12:34");
    assert_eq!(capture_time("time=1:2:3:4:5").unwrap(), "1:2:3:4");
    assert_eq!(capture_duration("Duration: N/A, Duration: 3.5").unwrap(), "3.5");
    assert_eq!(capture_frame("frame=\t7x").unwrap(), "7");
    assert!(capture_frame("frames=7").is_none());
}
