use papercut::camera::{Camera, EyePoint};
use papercut::context::{
    recovery_for, AcquireRecovery, Bananas, PresentMode, SurfaceError, SurfaceSize, TextureFormat,
};
use papercut::units::{Ratio, MICRO};

#[test]
fn ratio_equality_with_integers() {
    let half = Ratio::new(1, 2);
    assert!(!half.equals_int(0));
    assert!(!half.equals_int(1));
    let two = Ratio::new(6, 3);
    assert!(two.equals_int(2));
    let minus_one = Ratio::new(-7, 7);
    assert!(minus_one.equals_int(-1));
}

#[test]
fn ratio_cross_equality() {
    let a = Ratio::new(2, 4);
    let b = Ratio::new(3, 6);
    assert!(a.same_value_as(&b));
    let c = Ratio::new(2, 3);
    assert!(!a.same_value_as(&c));
}

#[test]
fn camera_projection_maps_viewport_corners_to_ndc_corners() {
    let mut camera = Camera::new(640, 480);
    camera.resize(1024, 576);
    let projection = camera.get_projection();
    let left_bottom_x = projection.ndc_x(0);
    let left_bottom_y = projection.ndc_y(0);
    assert!(left_bottom_x.equals_int(-1));
    assert!(left_bottom_y.equals_int(-1));
    let right_top_x = projection.ndc_x(1024 * MICRO);
    let right_top_y = projection.ndc_y(576 * MICRO);
    assert!(right_top_x.equals_int(1));
    assert!(right_top_y.equals_int(1));
}

#[test]
fn camera_projection_center_and_depth() {
    let camera = Camera::new(200, 100);
    let projection = camera.get_projection();
    assert!(projection.ndc_x(100 * MICRO).equals_int(0));
    assert!(projection.ndc_y(50 * MICRO).equals_int(0));
    // depth maps [-1, 1] world units onto [0, 1]
    assert!(projection.ndc_z(-MICRO).equals_int(0));
    assert!(projection.ndc_z(MICRO).equals_int(1));
}

#[test]
fn camera_view_translates_by_negated_eye() {
    let mut camera = Camera::new(100, 100);
    camera.look_from(EyePoint { x: -200 * MICRO, y: -200 * MICRO, z: -MICRO });
    let view = camera.get_view();
    assert_eq!(view.translate_x, 200 * MICRO);
    assert_eq!(view.translate_y, 200 * MICRO);
    assert_eq!(view.translate_z, MICRO);
}

#[test]
fn camera_resize_keeps_eye() {
    let mut camera = Camera::new(100, 100);
    camera.look_from(EyePoint { x: 7, y: 8, z: 9 });
    camera.resize(300, 200);
    assert_eq!(camera.eye, EyePoint { x: 7, y: 8, z: 9 });
    assert_eq!(camera.width, 300);
    assert_eq!(camera.height, 200);
}

#[test]
fn context_picks_first_format_and_fifo() {
    let formats = vec![TextureFormat::Bgra8UnormSrgb, TextureFormat::Rgba8Unorm];
    let bananas = Bananas::new(1024, 576, &formats).unwrap();
    assert_eq!(bananas.config.format, TextureFormat::Bgra8UnormSrgb);
    assert_eq!(bananas.config.present_mode, PresentMode::Fifo);
    assert_eq!((bananas.config.width, bananas.config.height), (1024, 576));
    assert_eq!(bananas.size, SurfaceSize::new(1024, 576));
}

#[test]
fn context_rejects_empty_formats_and_zero_sizes() {
    let formats: Vec<TextureFormat> = Vec::new();
    assert!(Bananas::new(1024, 576, &formats).is_none());
    let formats = vec![TextureFormat::Rgba8Unorm];
    assert!(Bananas::new(0, 576, &formats).is_none());
    assert!(Bananas::new(1024, 0, &formats).is_none());
}

#[test]
fn resize_with_zero_dimension_is_a_no_op() {
    let formats = vec![TextureFormat::Rgba8Unorm];
    let mut bananas = Bananas::new(800, 600, &formats).unwrap();
    let before = bananas;
    bananas.resize(SurfaceSize::new(0, 450));
    assert_eq!(bananas, before);
    bananas.resize(SurfaceSize::new(450, 0));
    assert_eq!(bananas, before);
}

#[test]
fn resize_updates_size_and_config_together() {
    let formats = vec![TextureFormat::Rgba8Unorm];
    let mut bananas = Bananas::new(800, 600, &formats).unwrap();
    bananas.resize(SurfaceSize::new(1920, 1080));
    assert_eq!(bananas.size, SurfaceSize::new(1920, 1080));
    assert_eq!((bananas.config.width, bananas.config.height), (1920, 1080));
    assert_eq!(bananas.config.format, TextureFormat::Rgba8Unorm);
}

#[test]
fn resize_twice_with_same_size_is_idempotent() {
    let formats = vec![TextureFormat::Rgba8Unorm];
    let mut bananas = Bananas::new(800, 600, &formats).unwrap();
    bananas.resize(SurfaceSize::new(1024, 576));
    let after_first = bananas;
    bananas.resize(SurfaceSize::new(1024, 576));
    assert_eq!(bananas, after_first);
}

#[test]
fn acquire_error_taxonomy() {
    assert_eq!(recovery_for(SurfaceError::Lost), AcquireRecovery::Reconfigure);
    assert_eq!(recovery_for(SurfaceError::Outdated), AcquireRecovery::Reconfigure);
    assert_eq!(recovery_for(SurfaceError::OutOfMemory), AcquireRecovery::Exit);
    assert_eq!(recovery_for(SurfaceError::Timeout), AcquireRecovery::SkipFrame);
}
