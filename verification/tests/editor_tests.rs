use cluv::editor::{Editor, ExportOptions};
use cluv::ffprobe::{FormatInfo, MediaInfo, StreamInfo};
use cluv::material::{Material, VideoMaterial};
use cluv::protocol::ExportType;
use cluv::segment::{Segment, SegmentType, TimeRange};
use cluv::track::Track;

#[test]
fn test_export_options() {
    let options = ExportOptions::new("output.mp4", ExportType::Video)
        .with_video_codec("libx264")
        .with_audio_codec("aac")
        .with_quality(23)
        .with_video_bitrate(5000)
        .with_audio_bitrate(128)
        .with_custom_option("preset", "medium");

    assert_eq!(options.output_file, "output.mp4");
    assert_eq!(options.video_codec, Some("libx264".to_string()));
    assert_eq!(options.audio_codec, Some("aac".to_string()));
    assert_eq!(options.quality, Some(23));
    assert_eq!(options.video_bitrate, Some(5000));
    assert_eq!(options.audio_bitrate, Some(128));
    assert_eq!(
        options.custom_options.get("preset"),
        Some(&"medium".to_string())
    );
}

#[test]
fn test_editor_creation() {
    let editor = Editor::new();
    assert_eq!(editor.session.stage.width, 1920);
    assert_eq!(editor.session.stage.height, 1080);
    assert!(editor.session.materials.is_empty());
    assert!(editor.session.tracks.is_empty());
}

#[test]
fn test_add_materials_and_tracks() {
    let mut editor = Editor::new();

    let material = Material::Video(VideoMaterial::new("video1", "test.mp4", 1920, 1080));
    let id = editor.add_material(material);
    assert_eq!(id, "video1");

    editor.add_video_track();

    assert_eq!(editor.session.materials.len(), 1);
    assert_eq!(editor.session.tracks.len(), 1);
}

#[test]
fn test_add_segment_to_track() {
    let mut editor = Editor::new();

    let material = Material::Video(VideoMaterial::new("video1", "test.mp4", 1920, 1080));
    editor.add_material(material);

    let track = Track::video();
    let track_id = editor.add_track(track);

    let segment = Segment::new(
        "segment1",
        SegmentType::Video,
        "video1",
        TimeRange::new(0, 5000),
        TimeRange::new(0, 5000),
    );

    let result = editor.add_segment_to_track(track_id.as_str(), segment);
    assert!(result.is_ok());

    let track = editor.session.get_track(track_id.as_str()).unwrap();
    assert_eq!(track.segments.len(), 1);
}

#[test]
fn test_enrichment_fills_only_missing() {
    let mut editor = Editor::new();
    editor.add_material(Material::Video(
        VideoMaterial::new("v1", "test.mp4", 0, 0).with_codec("h264"),
    ));

    let mut stream = StreamInfo::blank(0);
    stream.codec_type = Some("video".to_string());
    stream.width = Some(1280);
    stream.height = Some(720);
    stream.codec_name = Some("hevc".to_string());
    stream.r_frame_rate = Some("30000/1001".to_string());
    stream.bit_rate = Some("5000000".to_string());
    let mut format = FormatInfo::blank();
    format.duration = Some("120.5".to_string());
    let info = MediaInfo { format: Some(format), streams: vec![stream] };

    editor.apply_media_info(0, &info);
    match &editor.session.materials[0] {
        Material::Video(v) => {
            assert_eq!(v.dimension.width, 1280);
            assert_eq!(v.dimension.height, 720);
            // A present codec is never overwritten.
            assert_eq!(v.codec, Some("h264".to_string()));
            assert_eq!(v.fps, Some(29970));
            assert_eq!(v.bitrate, Some(5000));
            assert_eq!(v.duration, Some(120500));
        },
        _ => panic!("expected a video material"),
    }
}
