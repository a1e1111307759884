use lumi2d::config::{Config, polling_from_env, vsync_from_env};
use lumi2d::errors::{BackendError, BackendInitError, RegisterError, RendererError};
use lumi2d::images::{CacheableImage, PixelFormat, rgb8_to_rgba8};
use lumi2d::structs::Dimensions;
use lumi2d::svgs::CacheableSvg;
use lumi2d::text::{Paragraph, TextOptions, TextOverflow, TextWrap, paragraph_max_lines};
use lumi2d::window::{WindowDetails, WindowModes, FullscreenPlan, plan_window, resolve_display_mode};

#[test]
fn window_details_default_values() {
    let details = WindowDetails::default();
    assert_eq!(details.width, 800);
    assert_eq!(details.height, 600);
    assert_eq!(details.title, "Lumi2D Window");
    assert!(matches!(details.mode, WindowModes::Maximized));
}

#[test]
fn display_mode_resolution_follows_monitor() {
    assert_eq!(
        resolve_display_mode(WindowModes::Fullscreen, true),
        (FullscreenPlan::Exclusive, false)
    );
    // No exclusive video mode: fall back to borderless with a warning.
    assert_eq!(
        resolve_display_mode(WindowModes::Fullscreen, false),
        (FullscreenPlan::Borderless, true)
    );
    assert_eq!(
        resolve_display_mode(WindowModes::Borderless, true),
        (FullscreenPlan::Borderless, false)
    );
    assert_eq!(resolve_display_mode(WindowModes::Maximized, true), (FullscreenPlan::Off, false));
    assert_eq!(resolve_display_mode(WindowModes::Windowed, true), (FullscreenPlan::Off, false));
}

#[test]
fn window_plan_carries_request() {
    let plan = plan_window(WindowDetails::default(), true);
    assert_eq!(plan.width, 800);
    assert_eq!(plan.height, 600);
    assert_eq!(plan.title, "Lumi2D Window");
    assert_eq!(plan.fullscreen, FullscreenPlan::Off);
    assert!(plan.maximized);
    assert!(!plan.fallback_warning);
}

#[test]
fn polling_flag_needs_enabling_value() {
    for value in ["true", "yes", "on", "1"] {
        assert!(polling_from_env(Some(value.to_string())));
    }
    assert!(!polling_from_env(Some("TRUE".to_string())));
    assert!(!polling_from_env(Some("off".to_string())));
    assert!(!polling_from_env(None));
}

#[test]
fn vsync_flag_defaults_on() {
    for value in ["false", "no", "off", "0"] {
        assert!(!vsync_from_env(Some(value.to_string())));
    }
    assert!(vsync_from_env(Some("other".to_string())));
    assert!(vsync_from_env(None));
    let config = Config::from_env_values(Some("1".to_string()), Some("no".to_string()));
    assert!(config.polling);
    assert!(!config.vsync);
    assert_eq!(Config::default(), Config { polling: false, vsync: true });
}

#[test]
fn rgb_buffers_gain_opaque_alpha() {
    let rgba = rgb8_to_rgba8(&[1, 2, 3, 4, 5, 6]);
    assert_eq!(rgba, vec![1, 2, 3, 255, 4, 5, 6, 255]);
    assert_eq!(rgb8_to_rgba8(&[]), Vec::<u8>::new());
}

#[test]
fn decoding_malformed_bytes_is_recoverable() {
    let result = CacheableImage::from_encoded(&[0, 1, 2, 3]);
    assert!(matches!(result, Err(RegisterError::Image(_))));
    let result = CacheableImage::from_bytes_image(&[]);
    assert!(matches!(result, Err(RegisterError::Image(_))));
}

#[test]
fn decoding_valid_bytes_yields_rgba_pixels() {
    // Encode a tiny 2x1 image to PNG in memory, then decode it back.
    let mut encoded: Vec<u8> = Vec::new();
    let buffer: image::RgbaImage =
        image::ImageBuffer::from_raw(2, 1, vec![10, 20, 30, 255, 40, 50, 60, 255]).unwrap();
    image::DynamicImage::ImageRgba8(buffer)
        .write_to(&mut std::io::Cursor::new(&mut encoded), image::ImageFormat::Png)
        .unwrap();

    let decoded = CacheableImage::from_encoded(&encoded).expect("valid png");
    assert_eq!(*decoded.dimensions(), Dimensions::new(2, 1));
    assert!(matches!(decoded.format(), PixelFormat::RGBA8));
    assert_eq!(*decoded.pixels(), vec![10, 20, 30, 255, 40, 50, 60, 255]);
}

#[test]
fn content_identity_is_assigned_not_hashed() {
    // Decoding identical bytes twice yields two distinct identities.
    let first = CacheableSvg::new_cloned(&[1, 2, 3]);
    let second = CacheableSvg::new_cloned(&[1, 2, 3]);
    assert_eq!(*first.bytes(), *second.bytes());
    assert_ne!(first.uuid(), second.uuid());

    let pixels = vec![0u8; 4];
    let a = CacheableImage::new(pixels.clone(), PixelFormat::RGBA8, Dimensions::new(1, 1));
    let b = CacheableImage::new(pixels, PixelFormat::RGBA8, Dimensions::new(1, 1));
    assert_ne!(a.uuid(), b.uuid());
}

#[test]
fn text_options_defaults() {
    let options = TextOptions::default();
    assert_eq!(options.weight, 500);
    assert_eq!(options.size_millis, 16000);
    assert_eq!(options.font, None);
    assert_eq!(options.color, 0xFFFFFFFF);
    assert!(!options.italic);
    assert!(!options.underline);
    assert_eq!(options.wrap, TextWrap::WordWrap);
    assert_eq!(options.overflow, TextOverflow::Elide);
}

#[test]
fn paragraph_normalizes_zero_height() {
    let p = Paragraph::new("hi".to_string(), 100, Some(0), TextOptions::default());
    let Paragraph::Skia(description) = p;
    assert_eq!(description.max_height, None);
    assert_eq!(description.width, 100);
    assert_eq!(description.text, "hi");
}

#[test]
fn paragraph_line_limits() {
    // Unbounded height: no line limit.
    assert_eq!(paragraph_max_lines(None, TextWrap::WordWrap, 12000), None);
    // No wrapping: a single line regardless of height.
    assert_eq!(paragraph_max_lines(Some(100), TextWrap::NoWrap, 12000), Some(1));
    // Wrapping: whole line heights that fit. 100px at 12px lines -> 8.
    assert_eq!(paragraph_max_lines(Some(100), TextWrap::WordWrap, 12000), Some(8));
}

#[test]
fn error_messages_describe_failures() {
    assert_eq!(
        BackendError::Init(BackendInitError::NoBackend).message(),
        "No windowing backend could be created! Unable to continue."
    );
    assert_eq!(BackendError::Protocol.message(), "Could not get created window!");
    assert_eq!(BackendError::WindowCreation.message(), "Could not create native window!");
    assert_eq!(
        RendererError::NoRenderer.message(),
        "No renderer could be created! Unable to continue!"
    );
    assert_eq!(
        RendererError::Register(RegisterError::Font("bad".to_string())).message(),
        "Error loading font: bad"
    );
}
