use cluv::material::{Material, VideoMaterial};
use cluv::segment::{Segment, SegmentType, TimeRange};
use cluv::session::EditSession;
use cluv::stage::Stage;
use cluv::track::{Track, TrackType};

fn video_material(id: &str) -> Material {
    Material::Video(VideoMaterial::new(id, "test.mp4", 1920, 1080))
}

#[test]
fn test_session_creation() {
    let session = EditSession::new(Stage::new(1280, 720));
    assert_eq!(session.stage.width, 1280);
    assert_eq!(session.stage.height, 720);
    assert!(session.materials.is_empty());
    assert!(session.tracks.is_empty());
}

#[test]
fn test_get_material_and_track() {
    let mut session = EditSession::new(Stage::new(1920, 1080));
    session.add_material(video_material("video1"));
    session.add_track(Track::new("track1", TrackType::Video));

    assert!(session.get_material("video1").is_some());
    assert!(session.get_material("video2").is_none());
    assert!(session.get_track("track1").is_some());
    assert!(session.get_track("track2").is_none());
}

#[test]
fn test_session_validation_order() {
    let session = EditSession::new(Stage::new(1920, 1080));
    assert!(session.validate().is_ok());

    let invalid_session = EditSession::new(Stage::new(0, 1080));
    let err = invalid_session.validate().unwrap_err();
    assert_eq!(err.message(), "Stage width must be positive");

    let mut dangling = EditSession::new(Stage::new(1920, 1080));
    let mut track = Track::new("t1", TrackType::Video);
    track.add_segment(Segment::new(
        "s1",
        SegmentType::Video,
        "missing",
        TimeRange::new(0, 1000),
        TimeRange::new(0, 1000),
    ));
    dangling.add_track(track);
    let err = dangling.validate().unwrap_err();
    assert_eq!(err.message(), "Material 'missing' not found");
}

#[test]
fn test_track_filtering() {
    let mut session = EditSession::new(Stage::new(1920, 1080));
    session.add_track(Track::new("video1", TrackType::Video));
    session.add_track(Track::new("audio1", TrackType::Audio));
    session.add_track(Track::new("video2", TrackType::Video));

    assert_eq!(session.video_tracks().len(), 2);
    assert_eq!(session.audio_tracks().len(), 1);
}

#[test]
fn test_total_duration() {
    let mut session = EditSession::new(Stage::new(1920, 1080));
    assert_eq!(session.total_duration(), 0);

    let mut t1 = Track::new("t1", TrackType::Video);
    t1.add_segment(Segment::new(
        "s1",
        SegmentType::Video,
        "m1",
        TimeRange::new(0, 4000),
        TimeRange::new(0, 4000),
    ));
    let mut t2 = Track::new("t2", TrackType::Audio);
    t2.add_segment(Segment::new(
        "s2",
        SegmentType::Audio,
        "m1",
        TimeRange::new(1000, 5000),
        TimeRange::new(0, 5000),
    ));
    session.add_track(t1);
    session.add_track(t2);
    assert_eq!(session.total_duration(), 6000);
}

#[test]
fn test_session_add_segment_to_track() {
    let mut session = EditSession::new(Stage::new(1920, 1080));
    session.add_track(Track::new("t1", TrackType::Video));
    let segment = Segment::new(
        "s1",
        SegmentType::Video,
        "m1",
        TimeRange::new(0, 1000),
        TimeRange::new(0, 1000),
    );
    assert!(session.add_segment_to_track("t1", segment.clone()).is_ok());
    assert!(session.add_segment_to_track("nope", segment).is_err());
    assert_eq!(session.get_track("t1").unwrap().segments.len(), 1);
}
