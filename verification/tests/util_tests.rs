use cluv::util::{
    escape_filter_string, fix_pixel_len, format_bitrate, is_supported_audio_format,
    is_supported_image_format, is_supported_video_format, logo_position, parse_bitrate,
};

#[test]
fn util_test_fix_pixel_len() {
    assert_eq!(fix_pixel_len(1920), "1920");
    assert_eq!(fix_pixel_len(1921), "1922");
    assert_eq!(fix_pixel_len(-1), "-2");
    assert_eq!(fix_pixel_len(0), "-2");
}

#[test]
fn test_file_format_detection() {
    assert!(is_supported_video_format("test.mp4"));
    assert!(is_supported_audio_format("test.mp3"));
    assert!(is_supported_image_format("test.jpg"));
    assert!(!is_supported_video_format("test.txt"));
}

#[test]
fn test_bitrate_parsing() {
    assert_eq!(parse_bitrate("1000k").unwrap(), 1_000_000);
    assert_eq!(parse_bitrate("2M").unwrap(), 2_000_000);
    assert_eq!(parse_bitrate("500").unwrap(), 500);
    assert_eq!(format_bitrate(2_000_000), "2.0M");
    assert_eq!(format_bitrate(500_000), "500.0k");
}

#[test]
fn test_escape_filter_string() {
    assert_eq!(escape_filter_string("test:value"), "test\\:value");
    assert_eq!(escape_filter_string("test[0]"), "test\\[0\\]");
}

#[test]
fn test_logo_position_corners() {
    assert_eq!(logo_position(10, 20, "top-left"), "10:20");
    assert_eq!(logo_position(10, 20, "top-right"), "W-w-10:20");
    assert_eq!(logo_position(10, 20, "bottom-left"), "10:H-h-20");
    assert_eq!(logo_position(10, 20, "bottom-right"), "W-w-10:H-h-20");
    assert_eq!(logo_position(10, 20, "center"), "(W-w)/2+10:(H-h)/2+20");
    assert_eq!(logo_position(10, 20, "elsewhere"), "10:20");
}

#[test]
fn test_bitrate_parse_error() {
    assert!(parse_bitrate("fast").is_err());
    assert!(parse_bitrate("").is_err());
}

#[test]
fn test_transcoder_logo_position() {
    assert_eq!(logo_position(10, 20, "top-left"), "10:20");
    assert_eq!(logo_position(10, 20, "top-right"), "W-w-10:20");
    assert_eq!(logo_position(10, 20, "bottom-left"), "10:H-h-20");
    assert_eq!(logo_position(10, 20, "center"), "(W-w)/2+10:(H-h)/2+20");
}

#[test]
fn transcode_test_fix_pixel_len() {
    assert_eq!(fix_pixel_len(1920), "1920");
    assert_eq!(fix_pixel_len(1921), "1922");
    assert_eq!(fix_pixel_len(-1), "-2");
    assert_eq!(fix_pixel_len(0), "-2");
}

#[test]
fn snapshot_test_fix_pixel_len() {
    assert_eq!(fix_pixel_len(1920), "1920");
    assert_eq!(fix_pixel_len(1921), "1922");
    assert_eq!(fix_pixel_len(-1), "-2");
    assert_eq!(fix_pixel_len(0), "-2");
}
