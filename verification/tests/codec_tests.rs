use cluv::codec::{AudioCodec, Format, VideoCodec};

#[test]
fn codec_test_video_codec_conversions() {
    assert_eq!(VideoCodec::H264.as_str(), "libx264");
    assert_eq!(VideoCodec::from("h264"), VideoCodec::H264);
    assert_eq!(VideoCodec::custom("custom_codec").as_str(), "custom_codec");
}

#[test]
fn codec_test_audio_codec_conversions() {
    assert_eq!(AudioCodec::AAC.as_str(), "aac");
    assert_eq!(AudioCodec::from("mp3"), AudioCodec::MP3);
    assert!(AudioCodec::AAC.requires_encoding());
    assert!(!AudioCodec::Copy.requires_encoding());
}

#[test]
fn codec_test_format_properties() {
    assert!(Format::Mp4.is_video());
    assert!(Format::Mp3.is_audio());
    assert!(Format::Jpeg.is_image());
    assert_eq!(Format::Mp4.extension(), "mp4");
}
