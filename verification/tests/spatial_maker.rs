use frame_core::spatial_maker::depth::{DepthConfig, IMAGENET_MEAN, IMAGENET_STD};
use frame_core::spatial_maker::error::{SpatialError, SpatialResult};
use frame_core::spatial_maker::image_loader::{
    conversion_fallback_formats, format_name, loader_for_extension, loader_for_path,
    native_decoder_formats, supported_formats, Loader,
};
use frame_core::spatial_maker::model::{
    find_model, get_checkpoint_dir, model_exists, ModelMetadata,
};
use frame_core::spatial_maker::output::{
    compose_side_by_side, compose_top_and_bottom, mvhevc_command, separate_paths, Dimensions,
    ImageEncoding, MVHEVCConfig, OutputFormat, OutputOptions,
};

#[test]
fn test_imagenet_normalization_constants() {
    assert_eq!(IMAGENET_MEAN.len(), 3);
    assert_eq!(IMAGENET_STD.len(), 3);
    let first = IMAGENET_MEAN[0] as f64 / 1000.0;
    assert!(first > 0.4 && first < 0.5);
}

#[test]
fn test_depth_config_defaults() {
    let config = DepthConfig::default();
    assert_eq!(config.encoder_size, "s");
    assert_eq!(config.target_size, 518);
    assert!(config.use_coreml);
}

#[test]
fn test_error_display() {
    let err = SpatialError::ModelError("test model error".to_string());
    assert_eq!(err.message(), "Model error: test model error");
}

#[test]
fn test_result_type() {
    fn returns_result() -> SpatialResult<i32> {
        Ok(42)
    }
    assert_eq!(returns_result().unwrap(), 42);
}

#[test]
fn test_format_name() {
    assert_eq!(format_name("jpg"), "JPEG");
    assert_eq!(format_name("heic"), "HEIC/HEIF");
    assert_eq!(format_name("avif"), "AVIF");
    assert_eq!(format_name("jxl"), "JPEG XL");
}

#[test]
fn test_supported_formats() {
    let formats = supported_formats();
    assert!(formats.contains("JPEG"));
    assert!(formats.contains("PNG"));
}

#[test]
fn test_native_decoder_formats() {
    let formats = native_decoder_formats();
    assert!(!formats.is_empty());
}

#[test]
fn test_model_metadata_small() {
    let meta = ModelMetadata::for_encoder("s").unwrap();
    assert_eq!(meta.name, "depth-anything-v2-small");
    assert!(meta.url.contains("depth-anything-v2-small"));
}

#[test]
fn test_model_metadata_base() {
    let meta = ModelMetadata::for_encoder("b").unwrap();
    assert_eq!(meta.name, "depth-anything-v2-base");
}

#[test]
fn test_model_metadata_large() {
    let meta = ModelMetadata::for_encoder("l").unwrap();
    assert_eq!(meta.name, "depth-anything-v2-large");
}

#[test]
fn test_invalid_encoder() {
    let result = ModelMetadata::for_encoder("x");
    assert!(result.is_err());
}

#[test]
fn test_checkpoint_dir_with_env() {
    let dir = get_checkpoint_dir(Some("/tmp/test"), Some("/home/someone")).unwrap();
    assert_eq!(dir, "/tmp/test");
}

#[test]
fn test_output_format_name() {
    assert_eq!(OutputFormat::SideBySide.name(), "side-by-side");
    assert_eq!(OutputFormat::TopAndBottom.name(), "top-and-bottom");
    assert_eq!(OutputFormat::Separate.name(), "separate");
}

#[test]
fn test_image_encoding_detection() {
    assert_eq!(
        ImageEncoding::from_path("test.jpg"),
        ImageEncoding::Jpeg { quality: 95 }
    );
    assert_eq!(ImageEncoding::from_path("test.png"), ImageEncoding::Png);
    assert_eq!(
        ImageEncoding::from_path("test.unknown"),
        ImageEncoding::Jpeg { quality: 95 }
    );
}

#[test]
fn image_encoding_ignores_case_and_directories() {
    assert_eq!(ImageEncoding::from_path("/a.png/TEST.PNG"), ImageEncoding::Png);
    assert_eq!(ImageEncoding::from_path("/a.png/test"), ImageEncoding::Jpeg { quality: 95 });
    assert_eq!(ImageEncoding::from_extension("png"), ImageEncoding::Png);
    assert_eq!(ImageEncoding::from_extension("PNG"), ImageEncoding::Jpeg { quality: 95 });
}

#[test]
fn test_image_encoding_extension() {
    assert_eq!(ImageEncoding::Jpeg { quality: 95 }.extension(), "jpg");
    assert_eq!(ImageEncoding::Png.extension(), "png");
}

#[test]
fn test_mvhevc_config_default() {
    let config = MVHEVCConfig::default();
    assert_eq!(config.spatial_cli_path, None);
    assert!(!config.enabled);
    assert_eq!(config.quality, 95);
    assert!(!config.keep_intermediate);
}

#[test]
fn test_output_options_default() {
    let options = OutputOptions::default();
    assert_eq!(options.layout, OutputFormat::SideBySide);
    assert_eq!(options.image_format, ImageEncoding::Jpeg { quality: 95 });
    assert!(options.mvhevc.is_none());
}

#[test]
fn test_extension_detection() {
    assert_eq!(loader_for_path("photo.jpg").unwrap(), Loader::Standard);
}

#[test]
fn test_heic_extension() {
    assert_eq!(loader_for_path("photo.heic").unwrap(), Loader::Heic);
}

#[test]
fn test_avif_extension() {
    assert_eq!(loader_for_path("photo.avif").unwrap(), Loader::Avif);
}

#[test]
fn test_jxl_extension() {
    assert_eq!(loader_for_path("photo.jxl").unwrap(), Loader::Jxl);
}

#[test]
fn format_name_ignores_case_and_knows_the_rest() {
    assert_eq!(format_name("JPG"), "JPEG");
    assert_eq!(format_name("Png"), "PNG");
    assert_eq!(format_name("gif"), "GIF");
    assert_eq!(format_name("bmp"), "BMP");
    assert_eq!(format_name("tif"), "TIFF");
    assert_eq!(format_name("webp"), "WebP");
    assert_eq!(format_name("heif"), "HEIC/HEIF");
    assert_eq!(format_name("doc"), "Unknown");
    assert_eq!(
        conversion_fallback_formats(),
        "AVIF, JXL, HEIC/HEIF (via ffmpeg if native decoder not enabled/available)"
    );
}

#[test]
fn loader_rejects_unknown_and_missing_extensions() {
    let unknown = loader_for_extension("doc").unwrap_err();
    assert_eq!(
        unknown.message(),
        "Image error: Unsupported image format: .doc. Supported: JPEG, PNG, GIF, BMP, TIFF, WebP, AVIF, JXL, HEIC"
    );
    let missing = loader_for_path("photo").unwrap_err();
    assert_eq!(missing.message(), "Image error: File has no extension: \"photo\"");
    assert_eq!(loader_for_path("PHOTO.JPEG").unwrap(), Loader::Standard);
}

#[test]
fn every_spatial_error_kind_has_its_prefix() {
    assert_eq!(SpatialError::ImageError("a".into()).message(), "Image error: a");
    assert_eq!(SpatialError::TensorError("b".into()).message(), "Tensor error: b");
    assert_eq!(SpatialError::IoError("c".into()).message(), "I/O error: c");
    assert_eq!(SpatialError::ConfigError("d".into()).message(), "Configuration error: d");
    assert_eq!(SpatialError::OrtError("e".into()).message(), "ONNX Runtime error: e");
    assert_eq!(SpatialError::Other("f".into()).message(), "Error: f");
}

#[test]
fn model_metadata_is_complete() {
    let meta = ModelMetadata::for_encoder("base").unwrap();
    assert_eq!(meta.filename, "depth_anything_v2_base.onnx");
    assert_eq!(
        meta.url,
        "https://huggingface.co/onnx-community/depth-anything-v2-base/resolve/main/onnx/model.onnx"
    );
    assert_eq!(meta.size_mb, 380);
    assert_eq!(ModelMetadata::for_encoder("small").unwrap().size_mb, 99);
    assert_eq!(ModelMetadata::for_encoder("large").unwrap().size_mb, 1300);
    let err = ModelMetadata::for_encoder("x").unwrap_err();
    assert_eq!(
        err.message(),
        "Configuration error: Unknown encoder size: 'x'. Use 's', 'b', or 'l'"
    );
}

#[test]
fn checkpoint_dir_falls_back_to_home() {
    let dir = get_checkpoint_dir(None, Some("/home/someone")).unwrap();
    assert_eq!(dir, "/home/someone/.spatial-maker/checkpoints");
    let err = get_checkpoint_dir(None, None).unwrap_err();
    assert_eq!(err.message(), "Configuration error: Could not determine home directory");
}

#[test]
fn find_model_needs_the_file() {
    let files = vec!["depth_anything_v2_small.onnx".to_string(), "notes.txt".to_string()];
    assert_eq!(
        find_model("s", "/models", &files).unwrap(),
        "/models/depth_anything_v2_small.onnx"
    );
    assert!(model_exists("s", "/models", &files));
    assert!(!model_exists("l", "/models", &files));
    assert!(!model_exists("x", "/models", &files));
    let err = find_model("l", "/models", &files).unwrap_err();
    assert_eq!(
        err.message(),
        "Model error: Model not found: \"/models/depth_anything_v2_large.onnx\". Run download_model first."
    );
}

#[test]
fn test_save_side_by_side_height_mismatch() {
    let left = Dimensions { width: 100, height: 100 };
    let right = Dimensions { width: 100, height: 50 };
    let result = compose_side_by_side(left, right);
    assert!(result.is_err());
    assert_eq!(
        result.unwrap_err().message(),
        "Image error: Left and right images must have the same height: 100 != 50"
    );
}

#[test]
fn test_save_top_and_bottom_width_mismatch() {
    let left = Dimensions { width: 100, height: 100 };
    let right = Dimensions { width: 50, height: 100 };
    let result = compose_top_and_bottom(left, right);
    assert!(result.is_err());
    assert_eq!(
        result.unwrap_err().message(),
        "Image error: Left and right images must have the same width: 100 != 50"
    );
}

#[test]
fn compositions_place_the_right_view() {
    let view = Dimensions { width: 640, height: 480 };
    let beside = compose_side_by_side(view, view).unwrap();
    assert_eq!(beside.size, Dimensions { width: 1280, height: 480 });
    assert_eq!((beside.right_x, beside.right_y), (640, 0));
    let stacked = compose_top_and_bottom(view, view).unwrap();
    assert_eq!(stacked.size, Dimensions { width: 640, height: 960 });
    assert_eq!((stacked.right_x, stacked.right_y), (0, 480));
}

#[test]
fn separate_views_get_their_own_files() {
    let (left, right) = separate_paths("/out/output.jpg", ImageEncoding::Jpeg { quality: 90 }).unwrap();
    assert_eq!(left, "/out/output_L.jpg");
    assert_eq!(right, "/out/output_R.jpg");
    let (left, right) = separate_paths("picture.png", ImageEncoding::Png).unwrap();
    assert_eq!(left, "picture_L.png");
    assert_eq!(right, "picture_R.png");
    assert!(separate_paths("/", ImageEncoding::Png).is_err());
}

#[test]
fn mvhevc_command_names_tool_and_files() {
    let config = MVHEVCConfig::default();
    let (tool, args) = mvhevc_command("/out/stereo.jpg", &config);
    assert_eq!(tool, "spatial");
    assert_eq!(
        args,
        vec!["encode", "--input", "/out/stereo.jpg", "--output", "/out/stereo.heic", "--quality", "95"]
    );
    let custom = MVHEVCConfig {
        spatial_cli_path: Some("/opt/bin/spatial".to_string()),
        enabled: true,
        quality: 7,
        keep_intermediate: true,
    };
    let (tool, args) = mvhevc_command("a.png", &custom);
    assert_eq!(tool, "/opt/bin/spatial");
    assert_eq!(args[4], "a.heic");
    assert_eq!(args[6], "7");
}
