use frame_core::conversion::args::{
    build_ffmpeg_args, build_output_path, validate_task_input, PathKind,
};
use frame_core::conversion::codec::{
    add_audio_codec_args, add_audio_codec_args_copy, add_fps_args, add_subtitle_copy_args,
    add_video_codec_args, nvenc_constant_quality,
};
use frame_core::conversion::error::ErrorKind;
use frame_core::conversion::filters::{build_audio_filters, build_video_filters, escape_burn_path};
use frame_core::conversion::types::{ConversionConfig, CropConfig, MetadataConfig, MetadataMode};

fn contains_args(args: &[String], expected: &[&str]) -> bool {
    expected.iter().all(|e| args.iter().any(|a| a == e))
}

fn sample_config(container: &str) -> ConversionConfig {
    ConversionConfig {
        container: container.into(),
        video_codec: "libx264".into(),
        video_bitrate_mode: "crf".into(),
        video_bitrate: "5000".into(),
        audio_codec: "aac".into(),
        audio_bitrate: "128".into(),
        audio_channels: "original".into(),
        audio_volume: 10000,
        selected_audio_tracks: vec![1],
        selected_subtitle_tracks: vec![],
        subtitle_burn_path: None,
        resolution: "original".into(),
        custom_width: None,
        custom_height: None,
        scaling_algorithm: "bicubic".into(),
        fps: "original".into(),
        crf: 23,
        quality: 50,
        preset: "medium".into(),
        start_time: None,
        end_time: None,
        audio_normalize: false,
        metadata: MetadataConfig::default(),
        rotation: "0".into(),
        flip_horizontal: false,
        flip_vertical: false,
        ml_upscale: None,
        hw_decode: false,
        crop: None,
        nvenc_spatial_aq: false,
        nvenc_temporal_aq: false,
        videotoolbox_allow_sw: false,
    }
}

fn base_config() -> ConversionConfig {
    let mut config = sample_config("mp4");
    config.selected_audio_tracks = vec![];
    config.scaling_algorithm = "lanczos".into();
    config
}

fn default_config() -> ConversionConfig {
    let mut config = base_config();
    config.audio_bitrate = "192".into();
    config
}

#[test]
fn tests_test_default_mp4_h264() {
    let config = sample_config("mp4");
    let args = build_ffmpeg_args("input.mov", "output.mp4", &config);

    assert_eq!(args[0], "-i");
    assert_eq!(args[1], "input.mov");

    assert!(contains_args(&args, &["-c:v", "libx264"]));
    assert!(contains_args(&args, &["-c:a", "aac"]));

    assert!(contains_args(&args, &["-crf", "23"]));
    assert!(contains_args(&args, &["-preset", "medium"]));

    assert!(!args.iter().any(|a| a == "-vf"));
}

#[test]
fn tests_test_resolution_scaling_1080p() {
    let mut config = sample_config("mp4");
    config.resolution = "1080p".into();

    let args = build_ffmpeg_args("in.mp4", "out.mp4", &config);

    let vf_index = args.iter().position(|r| r == "-vf").unwrap();
    assert_eq!(args[vf_index + 1], "scale=-2:1080:flags=bicubic");
}

#[test]
fn tests_test_resolution_scaling_720p() {
    let mut config = sample_config("mp4");
    config.resolution = "720p".into();

    let args = build_ffmpeg_args("in.mp4", "out.mp4", &config);

    let vf_index = args.iter().position(|r| r == "-vf").unwrap();
    assert_eq!(args[vf_index + 1], "scale=-2:720:flags=bicubic");
}

#[test]
fn test_resolution_scaling_480p() {
    let mut config = sample_config("mp4");
    config.resolution = "480p".into();

    let args = build_ffmpeg_args("in.mp4", "out.mp4", &config);

    let vf_index = args.iter().position(|r| r == "-vf").unwrap();
    assert_eq!(args[vf_index + 1], "scale=-2:480:flags=bicubic");
}

#[test]
fn tests_test_high_quality_h265() {
    let mut config = sample_config("mkv");
    config.video_codec = "libx265".into();
    config.audio_codec = "ac3".into();
    config.audio_bitrate = "192".into();
    config.crf = 18;
    config.preset = "slow".into();

    let args = build_ffmpeg_args("raw.mov", "archive.mkv", &config);

    assert!(contains_args(&args, &["-c:v", "libx265"]));
    assert!(contains_args(&args, &["-crf", "18"]));
    assert!(contains_args(&args, &["-preset", "slow"]));
    assert!(contains_args(&args, &["-c:a", "ac3"]));
    assert_eq!(args.last().unwrap(), "archive.mkv");
}

#[test]
fn tests_test_web_optimization_vp9() {
    let mut config = sample_config("webm");
    config.video_codec = "libvpx-vp9".into();
    config.audio_codec = "libopus".into();
    config.audio_bitrate = "96".into();
    config.crf = 30;

    let args = build_ffmpeg_args("clip.mp4", "web.webm", &config);

    assert!(contains_args(&args, &["-c:v", "libvpx-vp9"]));
    assert!(contains_args(&args, &["-c:a", "libopus"]));
    assert!(args.last().unwrap().ends_with(".webm"));
}

#[test]
fn test_build_output_path_with_custom_name() {
    let custom = build_output_path(
        "/Users/hex/Videos/clip.mov",
        "mp4",
        Some("final_render".into()),
    );
    assert_eq!(custom, "/Users/hex/Videos/final_render.mp4");

    let default = build_output_path("/tmp/sample.mov", "mp4", None);
    assert_eq!(default, "/tmp/sample.mov_converted.mp4");
}

#[test]
fn test_custom_resolution_and_fps() {
    let mut config = sample_config("mp4");
    config.resolution = "custom".into();
    config.custom_width = Some("1280".into());
    config.custom_height = Some("720".into());
    config.scaling_algorithm = "lanczos".into();
    config.fps = "60".into();

    let args = build_ffmpeg_args("in.mp4", "out.mp4", &config);

    let vf_arg = args.iter().find(|a| a.starts_with("scale=")).unwrap();
    assert_eq!(
        vf_arg,
        "scale=1280:720:force_original_aspect_ratio=decrease:flags=lanczos,pad=1280:720:(ow-iw)/2:(oh-ih)/2"
    );

    let fps_index = args.iter().position(|a| a == "-r").unwrap();
    assert_eq!(args[fps_index + 1], "60");
}

#[test]
fn test_video_bitrate_mode() {
    let mut config = sample_config("mp4");
    config.video_bitrate_mode = "bitrate".into();
    config.video_bitrate = "2500".into();

    let args = build_ffmpeg_args("in.mp4", "out.mp4", &config);

    assert!(contains_args(&args, &["-b:v", "2500k"]));
    assert!(!args.iter().any(|a| a == "-crf"));
}

#[test]
fn test_av1_codec() {
    let mut config = sample_config("mkv");
    config.video_codec = "libsvtav1".into();

    let args = build_ffmpeg_args("in.mp4", "out.mkv", &config);

    assert!(contains_args(&args, &["-c:v", "libsvtav1"]));
}

#[test]
fn test_hardware_encoder_nvenc() {
    let mut config = sample_config("mp4");
    config.video_codec = "h264_nvenc".into();
    config.quality = 50;

    let args = build_ffmpeg_args("in.mp4", "out.mp4", &config);

    assert!(contains_args(&args, &["-c:v", "h264_nvenc"]));
    assert!(contains_args(&args, &["-rc:v", "vbr"]));
    assert!(contains_args(&args, &["-cq:v", "27"]));
    assert!(contains_args(&args, &["-preset", "medium"]));
    assert!(!args.iter().any(|a| a == "-crf"));

    config.video_codec = "hevc_nvenc".into();
    let args_hevc = build_ffmpeg_args("in.mp4", "out.mp4", &config);
    assert!(contains_args(&args_hevc, &["-c:v", "hevc_nvenc"]));
    assert!(contains_args(&args_hevc, &["-cq:v", "27"]));

    config.preset = "veryslow".into();
    let args_remapped = build_ffmpeg_args("in.mp4", "out.mp4", &config);
    assert!(contains_args(&args_remapped, &["-preset", "slow"]));
}

#[test]
fn test_hardware_encoder_videotoolbox() {
    let mut config = sample_config("mov");
    config.video_codec = "h264_videotoolbox".into();
    config.quality = 55;

    let args = build_ffmpeg_args("in.mov", "out.mov", &config);

    assert!(contains_args(&args, &["-c:v", "h264_videotoolbox"]));
    assert!(contains_args(&args, &["-q:v", "55"]));
    assert!(!args.iter().any(|a| a == "-crf"));
    assert!(!args.iter().any(|a| a == "-preset"));

    config.video_codec = "hevc_videotoolbox".into();
    let args_hevc = build_ffmpeg_args("in.mov", "out.mov", &config);
    assert!(contains_args(&args_hevc, &["-c:v", "hevc_videotoolbox"]));
    assert!(contains_args(&args_hevc, &["-q:v", "55"]));
}

#[test]
fn test_nvenc_option_flags() {
    let mut config = sample_config("mp4");
    config.video_codec = "h264_nvenc".into();
    config.nvenc_spatial_aq = true;
    config.nvenc_temporal_aq = true;

    let args = build_ffmpeg_args("in.mp4", "out.mp4", &config);
    assert!(contains_args(&args, &["-spatial_aq", "1"]));
    assert!(contains_args(&args, &["-temporal_aq", "1"]));
}

#[test]
fn test_videotoolbox_option_flags() {
    let mut config = sample_config("mov");
    config.video_codec = "h264_videotoolbox".into();
    config.videotoolbox_allow_sw = true;

    let args = build_ffmpeg_args("in.mov", "out.mov", &config);
    assert!(contains_args(&args, &["-allow_sw", "1"]));
}

#[test]
fn test_scaling_algorithms() {
    let algos = vec![
        ("lanczos", ":flags=lanczos"),
        ("bicubic", ":flags=bicubic"),
        ("nearest", ":flags=neighbor"),
    ];

    for (algo_name, expected_flag) in algos {
        let mut config = sample_config("mp4");
        config.resolution = "720p".into();
        config.scaling_algorithm = algo_name.into();

        let args = build_ffmpeg_args("in.mp4", "out.mp4", &config);
        let vf_arg = args.iter().find(|a| a.starts_with("scale=")).unwrap();
        assert!(
            vf_arg.ends_with(expected_flag),
            "Algorithm {} expected flag {}, got {}",
            algo_name,
            expected_flag,
            vf_arg
        );
    }
}

#[test]
fn tests_test_audio_volume_filter() {
    let config = sample_config("mp4");
    let args = build_ffmpeg_args("in.mp4", "out.mp4", &config);
    assert!(!args.iter().any(|a| a == "-af"), "no -af at 100% volume");

    let mut config_reduced = sample_config("mp4");
    config_reduced.audio_volume = 5000;
    let args_reduced = build_ffmpeg_args("in.mp4", "out.mp4", &config_reduced);
    let af_index = args_reduced.iter().position(|r| r == "-af").unwrap();
    assert_eq!(args_reduced[af_index + 1], "volume=0.50");

    let mut config_boosted = sample_config("mp4");
    config_boosted.audio_volume = 15000;
    let args_boosted = build_ffmpeg_args("in.mp4", "out.mp4", &config_boosted);
    let af_index = args_boosted.iter().position(|r| r == "-af").unwrap();
    assert_eq!(args_boosted[af_index + 1], "volume=1.50");
}

#[test]
fn youtube_upload_1080p() {
    let mut config = base_config();
    config.resolution = "1080p".into();
    config.video_codec = "libx264".into();
    config.crf = 18;
    config.preset = "slow".into();
    config.audio_codec = "aac".into();
    config.audio_bitrate = "192".into();

    let args = build_ffmpeg_args("raw_footage.mov", "youtube_upload.mp4", &config);

    assert!(args.contains(&"-c:v".to_string()));
    assert!(args.contains(&"libx264".to_string()));
    assert!(args.contains(&"-crf".to_string()));
    assert!(args.contains(&"18".to_string()));
    assert!(args.contains(&"-preset".to_string()));
    assert!(args.contains(&"slow".to_string()));

    let vf_idx = args.iter().position(|a| a == "-vf").unwrap();
    assert!(args[vf_idx + 1].contains("1080"));
}

#[test]
fn quick_share_720p_compressed() {
    let mut config = base_config();
    config.resolution = "720p".into();
    config.crf = 28;
    config.preset = "veryfast".into();
    config.audio_bitrate = "96".into();
    config.selected_audio_tracks = vec![1];

    let args = build_ffmpeg_args("video.mp4", "share.mp4", &config);

    assert!(args.contains(&"28".to_string()));
    assert!(args.contains(&"veryfast".to_string()));
    assert!(args.contains(&"96k".to_string()));
}

#[test]
fn archive_high_quality_hevc() {
    let mut config = base_config();
    config.container = "mkv".into();
    config.video_codec = "libx265".into();
    config.crf = 16;
    config.preset = "slow".into();
    config.audio_codec = "flac".into();
    config.audio_bitrate = "0".into();
    config.selected_audio_tracks = vec![1];

    let args = build_ffmpeg_args("master.mov", "archive.mkv", &config);

    assert!(args.contains(&"libx265".to_string()));
    assert!(args.contains(&"16".to_string()));
    assert!(args.contains(&"flac".to_string()));
    assert!(args.last().unwrap().ends_with(".mkv"));
}

#[test]
fn social_media_vertical_video() {
    let mut config = base_config();
    config.resolution = "custom".into();
    config.custom_width = Some("1080".into());
    config.custom_height = Some("1920".into());
    config.rotation = "90".into();
    config.crf = 20;

    let args = build_ffmpeg_args("horizontal.mp4", "vertical.mp4", &config);

    let vf_idx = args.iter().position(|a| a == "-vf").unwrap();
    let vf_arg = &args[vf_idx + 1];
    assert!(vf_arg.contains("transpose=1"));
    assert!(vf_arg.contains("1080") && vf_arg.contains("1920"));
}

#[test]
fn clip_extraction_with_trim() {
    let mut config = base_config();
    config.start_time = Some("00:01:30.00".into());
    config.end_time = Some("00:02:45.00".into());
    config.crf = 18;

    let args = build_ffmpeg_args("long_video.mp4", "clip.mp4", &config);

    assert!(args.contains(&"-ss".to_string()));
    assert!(args.contains(&"00:01:30.00".to_string()));
    assert!(args.contains(&"-t".to_string()));
    assert!(args.contains(&"75.000".to_string()));
}

#[test]
fn nvidia_hardware_encoding() {
    let mut config = base_config();
    config.video_codec = "h264_nvenc".into();
    config.quality = 60;
    config.preset = "medium".into();
    config.nvenc_spatial_aq = true;
    config.nvenc_temporal_aq = true;

    let args = build_ffmpeg_args("input.mp4", "output.mp4", &config);

    assert!(args.contains(&"h264_nvenc".to_string()));
    assert!(args.contains(&"-rc:v".to_string()));
    assert!(args.contains(&"vbr".to_string()));
    assert!(args.contains(&"-spatial_aq".to_string()));
    assert!(args.contains(&"1".to_string()));
    assert!(args.contains(&"-temporal_aq".to_string()));
}

#[test]
fn macos_videotoolbox_encoding() {
    let mut config = base_config();
    config.container = "mov".into();
    config.video_codec = "hevc_videotoolbox".into();
    config.quality = 65;
    config.videotoolbox_allow_sw = true;

    let args = build_ffmpeg_args("input.mov", "output.mov", &config);

    assert!(args.contains(&"hevc_videotoolbox".to_string()));
    assert!(args.contains(&"-q:v".to_string()));
    assert!(args.contains(&"65".to_string()));
    assert!(args.contains(&"-allow_sw".to_string()));
}

#[test]
fn audio_normalization_and_volume() {
    let mut config = base_config();
    config.audio_normalize = true;
    config.audio_volume = 12000;

    let args = build_ffmpeg_args("quiet.mp4", "loud.mp4", &config);

    let af_idx = args.iter().position(|a| a == "-af").unwrap();
    let af_arg = &args[af_idx + 1];
    assert!(af_arg.contains("loudnorm"));
    assert!(af_arg.contains("volume=1.20"));
}

#[test]
fn crop_and_flip_transformation() {
    let mut config = base_config();
    config.crop = Some(CropConfig {
        enabled: true,
        x: 100,
        y: 50,
        width: 1280,
        height: 720,
        source_width: Some(1920),
        source_height: Some(1080),
        aspect_ratio: Some("16:9".into()),
    });
    config.flip_horizontal = true;
    config.flip_vertical = false;

    let args = build_ffmpeg_args("full.mp4", "cropped.mp4", &config);

    let vf_idx = args.iter().position(|a| a == "-vf").unwrap();
    let vf_arg = &args[vf_idx + 1];
    assert!(vf_arg.contains("hflip"));
    assert!(vf_arg.contains("crop=1280:720:100:50"));
}

#[test]
fn metadata_replacement() {
    let mut config = base_config();
    config.metadata = MetadataConfig {
        mode: MetadataMode::Replace,
        title: Some("My Video".into()),
        artist: Some("Creator".into()),
        album: Some("Collection".into()),
        genre: Some("Tutorial".into()),
        date: Some("2026".into()),
        comment: Some("Test comment".into()),
    };

    let args = build_ffmpeg_args("input.mp4", "output.mp4", &config);

    assert!(args.contains(&"-map_metadata".to_string()));
    assert!(args.contains(&"-1".to_string()));
    assert!(args.iter().any(|a| a.contains("title=My Video")));
    assert!(args.iter().any(|a| a.contains("artist=Creator")));
}

#[test]
fn webm_vp9_opus_web_optimization() {
    let mut config = base_config();
    config.container = "webm".into();
    config.video_codec = "libvpx-vp9".into();
    config.audio_codec = "libopus".into();
    config.crf = 30;
    config.audio_bitrate = "96".into();
    config.resolution = "720p".into();
    config.selected_audio_tracks = vec![1];

    let args = build_ffmpeg_args("source.mp4", "web.webm", &config);

    assert!(args.contains(&"libvpx-vp9".to_string()));
    assert!(args.contains(&"libopus".to_string()));
    assert!(args.contains(&"30".to_string()));
    assert!(args.last().unwrap().ends_with(".webm"));
}

#[test]
fn multi_track_audio_selection() {
    let mut config = base_config();
    config.selected_audio_tracks = vec![1, 3];

    let args = build_ffmpeg_args("multi_audio.mkv", "output.mp4", &config);

    let map_positions: Vec<usize> = args
        .iter()
        .enumerate()
        .filter(|(_, a)| *a == "-map")
        .map(|(i, _)| i)
        .collect();

    assert!(map_positions.len() >= 2);
}

#[test]
fn fps_conversion_60_to_30() {
    let mut config = base_config();
    config.fps = "30".into();

    let args = build_ffmpeg_args("60fps.mp4", "30fps.mp4", &config);

    assert!(args.contains(&"-r".to_string()));
    assert!(args.contains(&"30".to_string()));
}

#[test]
fn av1_modern_codec() {
    let mut config = base_config();
    config.container = "mkv".into();
    config.video_codec = "libsvtav1".into();
    config.crf = 28;
    config.preset = "6".into();

    let args = build_ffmpeg_args("input.mp4", "av1.mkv", &config);

    assert!(args.contains(&"libsvtav1".to_string()));
    assert!(args.contains(&"28".to_string()));
}

#[test]
fn test_empty_video_filters() {
    let config = default_config();
    let filters = build_video_filters(&config, true);
    assert!(filters.is_empty());
}

#[test]
fn test_flip_filters() {
    let mut config = default_config();
    config.flip_horizontal = true;
    config.flip_vertical = true;
    let filters = build_video_filters(&config, true);
    assert_eq!(filters, vec!["hflip", "vflip"]);
}

#[test]
fn test_rotation_filter() {
    let mut config = default_config();
    config.rotation = "90".to_string();
    let filters = build_video_filters(&config, true);
    assert_eq!(filters, vec!["transpose=1"]);
}

#[test]
fn test_crop_filter() {
    let mut config = default_config();
    config.crop = Some(CropConfig {
        enabled: true,
        x: 10,
        y: 20,
        width: 100,
        height: 200,
        source_width: None,
        source_height: None,
        aspect_ratio: None,
    });
    let filters = build_video_filters(&config, true);
    assert_eq!(filters, vec!["crop=100:200:10:20"]);
}

#[test]
fn test_audio_normalize_filter() {
    let mut config = default_config();
    config.audio_normalize = true;
    let filters = build_audio_filters(&config);
    assert_eq!(filters, vec!["loudnorm=I=-16:TP=-1.5:LRA=11"]);
}

#[test]
fn filters_test_audio_volume_filter() {
    let mut config = default_config();
    config.audio_volume = 15000;
    let filters = build_audio_filters(&config);
    assert_eq!(filters, vec!["volume=1.50"]);
}

#[test]
fn whole_argument_list_in_order() {
    let mut config = sample_config("mp4");
    config.start_time = Some("10".into());
    config.end_time = Some("12.3456".into());
    config.selected_audio_tracks = vec![1, 2];
    config.selected_subtitle_tracks = vec![4];
    config.audio_channels = "stereo".into();
    config.flip_vertical = true;
    config.fps = "25".into();
    config.metadata.mode = MetadataMode::Clean;
    let args = build_ffmpeg_args("in.mkv", "out.mp4", &config);
    assert_eq!(
        args,
        vec![
            "-ss", "10", "-i", "in.mkv", "-t", "2.346", "-map_metadata", "-1", "-c:v", "libx264",
            "-crf", "23", "-preset", "medium", "-vf", "vflip", "-r", "25", "-map", "0:v:0",
            "-map", "0:1", "-map", "0:2", "-c:a", "aac", "-b:a", "128k", "-ac", "2", "-map",
            "0:4", "-c:s", "copy", "-y", "out.mp4",
        ]
    );
}

#[test]
fn audio_only_container_drops_the_picture() {
    let mut config = base_config();
    config.container = "MP3".into();
    config.end_time = Some("00:01:00".into());
    config.audio_channels = "mono".into();
    let args = build_ffmpeg_args("in.wav", "out.mp3", &config);
    assert_eq!(args, vec!["-i", "in.wav", "-to", "00:01:00", "-vn", "-c:s", "copy", "-y", "out.mp3"]);
}

#[test]
fn trim_end_before_start_names_no_length() {
    let mut config = base_config();
    config.start_time = Some("00:02:00".into());
    config.end_time = Some("00:01:00".into());
    let args = build_ffmpeg_args("a", "b", &config);
    assert!(!args.contains(&"-t".to_string()));
    assert!(!args.contains(&"-to".to_string()));
    config.end_time = Some("soon".into());
    let args = build_ffmpeg_args("a", "b", &config);
    assert!(!args.contains(&"-t".to_string()));
    config.start_time = Some("".into());
    let args = build_ffmpeg_args("a", "b", &config);
    assert!(contains_args(&args, &["-to", "soon"]));
    assert!(!args.contains(&"-ss".to_string()));
}

#[test]
fn nvenc_quality_formula() {
    assert_eq!(nvenc_constant_quality(0), 51);
    assert_eq!(nvenc_constant_quality(1), 51);
    assert_eq!(nvenc_constant_quality(2), 51);
    assert_eq!(nvenc_constant_quality(3), 51);
    assert_eq!(nvenc_constant_quality(4), 50);
    assert_eq!(nvenc_constant_quality(49), 28);
    assert_eq!(nvenc_constant_quality(50), 27);
    assert_eq!(nvenc_constant_quality(51), 27);
    assert_eq!(nvenc_constant_quality(100), 2);
    assert_eq!(nvenc_constant_quality(102), 1);
    assert_eq!(nvenc_constant_quality(103), 1);
    assert_eq!(nvenc_constant_quality(u32::MAX), 1);
}

#[test]
fn codec_helpers_add_their_arguments() {
    let mut config = sample_config("mp4");
    let mut args = vec!["x".to_string()];
    add_audio_codec_args_copy(&mut args);
    assert_eq!(args, vec!["x", "-c:a", "copy"]);

    let mut args = Vec::new();
    config.audio_codec = "flac".into();
    config.audio_channels = "mono".into();
    add_audio_codec_args(&mut args, &config);
    assert_eq!(args, vec!["-c:a", "flac", "-ac", "1"]);

    let mut args = Vec::new();
    config.subtitle_burn_path = Some("C:\\subs\\a.srt".into());
    add_subtitle_copy_args(&mut args, &config);
    assert!(args.is_empty());
    config.subtitle_burn_path = Some("".into());
    add_subtitle_copy_args(&mut args, &config);
    assert_eq!(args, vec!["-c:s", "copy"]);

    let mut args = Vec::new();
    add_fps_args(&mut args, &config);
    assert!(args.is_empty());

    let mut args = Vec::new();
    config.video_bitrate_mode = "bitrate".into();
    config.video_codec = "h264_nvenc".into();
    config.preset = "p5".into();
    add_video_codec_args(&mut args, &config);
    assert_eq!(args, vec!["-c:v", "h264_nvenc", "-b:v", "5000k", "-preset", "p5"]);
}

#[test]
fn video_filters_in_their_order() {
    let mut config = default_config();
    config.flip_horizontal = true;
    config.rotation = "180".into();
    config.crop = Some(CropConfig {
        enabled: true,
        x: -5,
        y: 0,
        width: 0,
        height: -7,
        source_width: None,
        source_height: None,
        aspect_ratio: None,
    });
    config.subtitle_burn_path = Some("C:\\subs\\a.srt".into());
    config.resolution = "custom".into();
    config.custom_width = Some("640".into());
    config.scaling_algorithm = "nearest".into();
    let filters = build_video_filters(&config, true);
    assert_eq!(
        filters,
        vec![
            "hflip",
            "transpose=1,transpose=1",
            "crop=1:1:0:0",
            "subtitles='C\\:/subs/a.srt'",
            "scale=640:-1:flags=neighbor",
        ]
    );
    let unscaled = build_video_filters(&config, false);
    assert_eq!(unscaled.len(), 4);
    config.custom_width = None;
    assert_eq!(build_video_filters(&config, true)[4], "scale=-1:-1");
    config.resolution = "4k".into();
    assert_eq!(build_video_filters(&config, true)[4], "scale=-1:-1");
    config.rotation = "270".into();
    assert_eq!(build_video_filters(&config, false)[1], "transpose=2");
    assert_eq!(escape_burn_path("a:b\\c"), "a\\:b/c");
}

#[test]
fn volume_within_tolerance_is_left_alone() {
    let mut config = default_config();
    config.audio_volume = 10001;
    assert!(build_audio_filters(&config).is_empty());
    config.audio_volume = 9999;
    assert!(build_audio_filters(&config).is_empty());
    config.audio_volume = 10002;
    assert_eq!(build_audio_filters(&config), vec!["volume=1.00"]);
    config.audio_volume = 9949;
    assert_eq!(build_audio_filters(&config), vec!["volume=0.99"]);
    config.audio_volume = 9950;
    assert_eq!(build_audio_filters(&config), vec!["volume=1.00"]);
    config.audio_volume = 0;
    assert_eq!(build_audio_filters(&config), vec!["volume=0.00"]);
    config.audio_volume = 123456;
    assert_eq!(build_audio_filters(&config), vec!["volume=12.35"]);
}

#[test]
fn output_path_rules() {
    assert_eq!(build_output_path("/v/clip.mov", "mp4", Some("  name.mkv ".into())), "/v/name.mkv");
    assert_eq!(build_output_path("/v/clip.mov", "mp4", Some("   ".into())), "/v/clip.mov_converted.mp4");
    assert_eq!(build_output_path("clip.mov", "webm", Some("out".into())), "out.webm");
    assert_eq!(build_output_path("/v/clip.mov", "mp4", Some("/abs/out".into())), "/abs/out.mp4");
}

#[test]
fn validation_rejects_each_fault() {
    let config = sample_config("mp4");
    let missing = validate_task_input("/no/file", PathKind::Missing, &config).unwrap_err();
    assert_eq!(missing.kind(), ErrorKind::InvalidInput);
    assert_eq!(missing.message(), "Invalid input: Input file does not exist: /no/file");
    let dir = validate_task_input("/tmp", PathKind::NotAFile, &config).unwrap_err();
    assert_eq!(dir.message(), "Invalid input: Input path is not a file: /tmp");
    assert!(validate_task_input("/f", PathKind::File, &config).is_ok());

    let mut custom = sample_config("mp4");
    custom.resolution = "custom".into();
    assert!(validate_task_input("/f", PathKind::File, &custom).is_ok());
    custom.custom_width = Some("wide".into());
    assert_eq!(
        validate_task_input("/f", PathKind::File, &custom).unwrap_err().message(),
        "Invalid input: Invalid custom width: wide"
    );
    custom.custom_width = Some("+640".into());
    custom.custom_height = Some("4.5".into());
    assert_eq!(
        validate_task_input("/f", PathKind::File, &custom).unwrap_err().message(),
        "Invalid input: Invalid custom height: 4.5"
    );
    custom.custom_height = Some("0".into());
    assert_eq!(
        validate_task_input("/f", PathKind::File, &custom).unwrap_err().message(),
        "Invalid input: Resolution dimensions cannot be zero"
    );
    custom.custom_height = Some("-2".into());
    assert_eq!(
        validate_task_input("/f", PathKind::File, &custom).unwrap_err().message(),
        "Invalid input: Resolution dimensions cannot be negative (except -1 for auto)"
    );
    custom.custom_height = Some("-1".into());
    assert!(validate_task_input("/f", PathKind::File, &custom).is_ok());
    custom.custom_height = Some("2147483648".into());
    assert!(validate_task_input("/f", PathKind::File, &custom).is_err());
    custom.custom_height = Some("-2147483648".into());
    assert_eq!(
        validate_task_input("/f", PathKind::File, &custom).unwrap_err().message(),
        "Invalid input: Resolution dimensions cannot be negative (except -1 for auto)"
    );

    let mut rate = sample_config("mp4");
    rate.video_bitrate_mode = "bitrate".into();
    assert!(validate_task_input("/f", PathKind::File, &rate).is_ok());
    rate.video_bitrate = "fast".into();
    assert_eq!(
        validate_task_input("/f", PathKind::File, &rate).unwrap_err().message(),
        "Invalid input: Invalid video bitrate: fast"
    );
    rate.video_bitrate = "0".into();
    assert_eq!(
        validate_task_input("/f", PathKind::File, &rate).unwrap_err().message(),
        "Invalid input: Video bitrate must be positive"
    );
    rate.video_bitrate = "-5".into();
    assert_eq!(
        validate_task_input("/f", PathKind::File, &rate).unwrap_err().message(),
        "Invalid input: Video bitrate must be positive"
    );
    rate.container = "Mp3".into();
    assert!(validate_task_input("/f", PathKind::File, &rate).is_ok());
}
