use cluv::segment::{Segment, SegmentType, TimeRange};
use cluv::track::{Track, TrackType};

fn seg(id: &str, start: u32, duration: u32) -> Segment {
    Segment::new(
        id,
        SegmentType::Video,
        "test_material",
        TimeRange::new(start, duration),
        TimeRange::new(0, duration),
    )
}

#[test]
fn test_track_creation_and_properties() {
    let mut track = Track::new("track1", TrackType::Video);
    assert_eq!(track.id, "track1");
    assert_eq!(track.track_type, TrackType::Video);
    assert!(track.segments.is_empty());
    assert!(track.enabled);
    assert!(!track.muted);
    assert_eq!(track.volume, 1000);
    assert_eq!(track.opacity, 1000);
    assert!(track.blend_mode.is_none());

    track.set_enabled(false);
    assert!(!track.enabled);
    track.set_muted(true);
    assert!(track.muted);
    track.set_volume(500);
    assert_eq!(track.volume, 500);
    track.set_volume(5000);
    assert_eq!(track.volume, 1000);
    track.set_opacity(800);
    assert_eq!(track.opacity, 800);
    track.set_blend_mode("multiply");
    assert_eq!(track.blend_mode, Some("multiply".to_string()));
    track.clear_blend_mode();
    assert!(track.blend_mode.is_none());
}

#[test]
fn test_track_duration_and_start() {
    let mut track = Track::new("track1", TrackType::Video);
    assert_eq!(track.duration(), 0);
    assert_eq!(track.start_time(), 0);

    track.add_segment(seg("seg1", 500, 1000));
    track.add_segment(seg("seg2", 1000, 2000));
    assert_eq!(track.duration(), 3000);
    assert_eq!(track.start_time(), 500);
}

#[test]
fn test_overlap_detection() {
    let mut track = Track::new("track1", TrackType::Video);
    track.add_segment(seg("seg1", 0, 1000));
    track.add_segment(seg("seg2", 1000, 1000));
    assert!(!track.has_overlapping_segments());

    track.add_segment(seg("seg3", 500, 1000));
    assert!(track.has_overlapping_segments());
}

#[test]
fn test_overlap_scenario_pairs() {
    // Segments [0,1000) and [500,1500) on one track overlap; [0,1000) and
    // [1000,2000) do not.
    let mut overlapping = Track::new("t", TrackType::Video);
    overlapping.add_segment(seg("a", 0, 1000));
    overlapping.add_segment(seg("b", 500, 1000));
    assert!(overlapping.has_overlapping_segments());

    let mut adjacent = Track::new("t", TrackType::Video);
    adjacent.add_segment(seg("a", 0, 1000));
    adjacent.add_segment(seg("b", 1000, 1000));
    assert!(!adjacent.has_overlapping_segments());
}

#[test]
fn test_sort_segments_by_start() {
    let mut track = Track::new("track1", TrackType::Video);
    track.add_segment(seg("seg2", 1000, 1000));
    track.add_segment(seg("seg1", 0, 1000));
    track.add_segment(seg("seg3", 500, 1000));

    track.sort_segments();

    assert_eq!(track.segments[0].id, "seg1");
    assert_eq!(track.segments[1].id, "seg3");
    assert_eq!(track.segments[2].id, "seg2");
}

#[test]
fn test_segments_queries() {
    let mut track = Track::new("track1", TrackType::Video);
    track.add_segment(seg("seg1", 0, 1000));
    track.add_segment(seg("seg2", 500, 1000));
    track.add_segment(seg("seg3", 2000, 1000));

    assert_eq!(track.segments_at_time(750).len(), 2);
    assert_eq!(track.segments_at_time(2500).len(), 1);
    assert_eq!(track.segments_at_time(5000).len(), 0);

    assert_eq!(track.segments_in_range(200, 800).len(), 2);
    let in_range = track.segments_in_range(1200, 1800);
    assert_eq!(in_range.len(), 1);
    assert_eq!(in_range[0].id, "seg2");
    assert_eq!(track.segments_in_range(3500, 4000).len(), 0);
}

#[test]
fn test_remove_and_get_segment() {
    let mut track = Track::new("track1", TrackType::Video);
    track.add_segment(seg("seg1", 0, 1000));

    assert!(track.get_segment("seg1").is_some());
    assert!(track.get_segment("seg2").is_none());
    assert!(track.remove_segment("seg1"));
    assert!(!track.remove_segment("seg1"));
    assert_eq!(track.segment_count(), 0);
}

#[test]
fn test_track_validation_messages() {
    let track = Track::new("track1", TrackType::Video);
    assert!(track.validate().is_ok());

    let empty_id_track = Track::new("", TrackType::Video);
    assert!(empty_id_track.validate().is_err());

    let mut invalid_volume_track = Track::new("track1", TrackType::Audio);
    invalid_volume_track.volume = 2000;
    assert!(invalid_volume_track.validate().is_err());

    let mut with_bad_segment = Track::new("track1", TrackType::Video);
    with_bad_segment.add_segment(seg("s", 0, 0));
    let err = with_bad_segment.validate().unwrap_err();
    assert_eq!(
        err.message(),
        "Segment 0 validation failed: Invalid parameters: Target duration must be positive"
    );
}

#[test]
fn test_track_capabilities() {
    let video_track = Track::video();
    assert!(!video_track.supports_volume());
    assert!(video_track.supports_opacity());
    assert!(video_track.supports_blend_mode());
    assert_eq!(video_track.id().chars().count(), 36);

    let audio_track = Track::audio();
    assert!(audio_track.supports_volume());
    assert!(!audio_track.supports_opacity());
    assert!(!audio_track.supports_blend_mode());
}

#[test]
fn test_sort_segments_is_stable() {
    let mut track = Track::new("track1", TrackType::Video);
    track.add_segment(seg("late", 900, 100));
    track.add_segment(seg("first_at_500", 500, 100));
    track.add_segment(seg("second_at_500", 500, 200));
    track.add_segment(seg("early", 0, 100));
    track.add_segment(seg("third_at_500", 500, 300));

    track.sort_segments();

    assert_eq!(track.segments[0].id, "early");
    assert_eq!(track.segments[1].id, "first_at_500");
    assert_eq!(track.segments[2].id, "second_at_500");
    assert_eq!(track.segments[3].id, "third_at_500");
    assert_eq!(track.segments[4].id, "late");
}
