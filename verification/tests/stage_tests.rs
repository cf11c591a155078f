use cluv::stage::Stage;

#[test]
fn test_stage_creation() {
    let stage = Stage::new(1920, 1080);
    assert_eq!(stage.width, 1920);
    assert_eq!(stage.height, 1080);
}

#[test]
fn test_preset_resolutions() {
    assert_eq!(Stage::hd1080(), Stage::new(1920, 1080));
    assert_eq!(Stage::hd720(), Stage::new(1280, 720));
    assert_eq!(Stage::uhd4k(), Stage::new(3840, 2160));
    assert_eq!(Stage::vertical_hd(), Stage::new(1080, 1920));
    assert_eq!(Stage::square(), Stage::new(1080, 1080));
}

#[test]
fn test_orientation() {
    let landscape = Stage::hd1080();
    assert!(landscape.is_landscape());
    assert!(!landscape.is_portrait());
    assert!(!landscape.is_square());

    let portrait = Stage::vertical_hd();
    assert!(!portrait.is_landscape());
    assert!(portrait.is_portrait());
    assert!(!portrait.is_square());

    let square = Stage::square();
    assert!(!square.is_landscape());
    assert!(!square.is_portrait());
    assert!(square.is_square());
}

#[test]
fn stage_test_validation() {
    let valid_stage = Stage::new(1920, 1080);
    assert!(valid_stage.validate().is_ok());

    let invalid_width = Stage::new(0, 1080);
    assert!(invalid_width.validate().is_err());

    let invalid_height = Stage::new(1920, 0);
    assert!(invalid_height.validate().is_err());

    let negative = Stage::new(-100, -100);
    assert!(negative.validate().is_err());
}

#[test]
fn test_scaling() {
    let stage = Stage::new(1920, 1080);
    let scaled = stage.scale_by_ratio(1, 2);
    assert_eq!(scaled, Stage::new(960, 540));

    let scaled_up = stage.scale_by_ratio(2, 1);
    assert_eq!(scaled_up, Stage::new(3840, 2160));
}

#[test]
fn test_fit_within_bounds() {
    let large_stage = Stage::new(4000, 3000);
    let fitted = large_stage.fit_within(1920, 1080);

    assert!(fitted.width <= 1920);
    assert!(fitted.height <= 1080);
    assert_eq!(fitted, Stage::new(1440, 1080));

    let small = Stage::new(640, 480);
    assert_eq!(small.fit_within(1920, 1080), small);
}

#[test]
fn test_contains_point() {
    let stage = Stage::new(1920, 1080);

    assert!(stage.contains_point(0, 0));
    assert!(stage.contains_point(960, 540));
    assert!(stage.contains_point(1919, 1079));

    assert!(!stage.contains_point(-1, 0));
    assert!(!stage.contains_point(0, -1));
    assert!(!stage.contains_point(1920, 1080));
    assert!(!stage.contains_point(2000, 1200));
}

#[test]
fn test_contains_rect() {
    let stage = Stage::new(1920, 1080);

    assert!(stage.contains_rect(0, 0, 100, 100));
    assert!(stage.contains_rect(100, 100, 200, 200));
    assert!(stage.contains_rect(1820, 980, 100, 100));

    assert!(!stage.contains_rect(-10, 0, 100, 100));
    assert!(!stage.contains_rect(0, -10, 100, 100));
    assert!(!stage.contains_rect(1850, 1000, 100, 100));
    assert!(!stage.contains_rect(1000, 1050, 100, 100));
}

#[test]
fn test_center() {
    let stage = Stage::new(1920, 1080);
    assert_eq!(stage.center(), (960, 540));

    let square = Stage::new(1000, 1000);
    assert_eq!(square.center(), (500, 500));
}

#[test]
fn test_pixel_count() {
    let hd = Stage::hd1080();
    assert_eq!(hd.pixel_count(), 1920 * 1080);

    let uhd = Stage::uhd4k();
    assert_eq!(uhd.pixel_count(), 3840 * 2160);
}

#[test]
fn stage_test_conversions() {
    let stage = Stage::new(1920, 1080);
    let tuple: (i32, i32) = stage.into();
    assert_eq!(tuple, (1920, 1080));

    let stage_from_tuple = Stage::from((1280, 720));
    assert_eq!(stage_from_tuple, Stage::new(1280, 720));
}

#[test]
fn stage_test_display() {
    let stage = Stage::new(1920, 1080);
    assert_eq!(stage.to_string(), "1920x1080");
}
