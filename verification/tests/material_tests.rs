use cluv::material::{AudioMaterial, Dimension, ImageMaterial, MaterialType, VideoMaterial};

#[test]
fn test_audio_material() {
    let audio = AudioMaterial::new("audio1", "test.wav")
        .with_duration(30000)
        .with_sample_rate(44100)
        .with_channels(2)
        .with_codec("pcm")
        .with_bitrate(1411);

    assert_eq!(audio.id, "audio1");
    assert_eq!(audio.src, "test.wav");
    assert_eq!(audio.duration, Some(30000));
    assert_eq!(audio.sample_rate, Some(44100));
    assert_eq!(audio.channels, Some(2));
    assert_eq!(audio.codec, Some("pcm".to_string()));
    assert_eq!(audio.bitrate, Some(1411));
    assert!(audio.validate().is_ok());
}

#[test]
fn test_dimension() {
    let dim = Dimension::new(1920, 1080);
    assert_eq!(dim.width, 1920);
    assert_eq!(dim.height, 1080);
    assert!(dim.is_landscape());
    assert!(!dim.is_portrait());
    assert!(!dim.is_square());
    assert_eq!(dim.pixel_count(), 1920 * 1080);

    let scaled = dim.scale_by_ratio(1, 2);
    assert_eq!(scaled.width, 960);
    assert_eq!(scaled.height, 540);
}

#[test]
fn material_test_conversions() {
    let dim = Dimension::new(1920, 1080);
    let tuple: (i32, i32) = dim.into();
    assert_eq!(tuple, (1920, 1080));

    let dim_from_tuple = Dimension::from((1280, 720));
    assert_eq!(dim_from_tuple, Dimension::new(1280, 720));
}

#[test]
fn material_test_display() {
    assert_eq!(MaterialType::Video.to_string(), "video");
    assert_eq!(MaterialType::Audio.to_string(), "audio");
    assert_eq!(MaterialType::Image.to_string(), "image");
}

#[test]
fn test_video_material_validation_messages() {
    let invalid_video = VideoMaterial::new("v1", "test.mp4", 0, 1080);
    assert!(invalid_video.validate().is_err());

    let invalid_fps = VideoMaterial::new("v1", "test.mp4", 1920, 1080).with_fps(0);
    assert!(invalid_fps.validate().is_err());

    let invalid_audio = AudioMaterial::new("a1", "test.wav").with_channels(0);
    assert!(invalid_audio.validate().is_err());

    let invalid_image = ImageMaterial::new("i1", "test.jpg", -100, 1080);
    assert!(invalid_image.validate().is_err());

    let ok = VideoMaterial::new("v1", "test.mp4", 1920, 1080).with_fps(30000);
    assert!(ok.validate().is_ok());
}
