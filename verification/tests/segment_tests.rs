use cluv::material::Dimension;
use cluv::segment::{Position, Scale, Segment, SegmentType, TimeRange};

#[test]
fn test_time_range() {
    let range = TimeRange::new(1000, 2000);
    assert_eq!(range.start, 1000);
    assert_eq!(range.duration, 2000);
    assert_eq!(range.end(), 3000);

    assert!(range.contains(1500));
    assert!(range.contains(1000));
    assert!(!range.contains(3000));
    assert!(!range.contains(500));

    let other = TimeRange::new(2500, 1000);
    assert!(range.overlaps(&other));

    let intersection = range.intersection(&other);
    assert!(intersection.is_some());
    let intersection = intersection.unwrap();
    assert_eq!(intersection.start, 2500);
    assert_eq!(intersection.duration, 500);
}

#[test]
fn test_position() {
    let pos = Position::new(100, 200);
    assert_eq!(pos.x, 100);
    assert_eq!(pos.y, 200);

    let origin = Position::origin();
    assert_eq!(origin.x, 0);
    assert_eq!(origin.y, 0);

    let center = Position::center(1920, 1080, 640, 480);
    assert_eq!(center.x, 640);
    assert_eq!(center.y, 300);

    let offset = pos.offset(50, -100);
    assert_eq!(offset.x, 150);
    assert_eq!(offset.y, 100);

    assert!(pos.within_bounds(1920, 1080));
    assert!(!pos.within_bounds(50, 50));
}

#[test]
fn test_segment_with_scale_and_position() {
    let target = TimeRange::new(0, 1000);
    let source = TimeRange::new(0, 1000);
    let segment = Segment::video("mat1", target, source)
        .scale(Dimension::new(1920, 1080))
        .position(Position::new(100, 200));

    assert!(segment.scale.is_some());
    assert!(segment.position.is_some());
    assert_eq!(segment.scale.unwrap().width, 1920);
    assert_eq!(segment.position.unwrap().x, 100);
}

#[test]
fn test_segment_overlap() {
    let seg1 = Segment::video("mat1", TimeRange::new(0, 1000), TimeRange::new(0, 1000));
    let seg2 = Segment::video("mat2", TimeRange::new(500, 1000), TimeRange::new(0, 1000));
    let seg3 = Segment::video("mat3", TimeRange::new(2000, 1000), TimeRange::new(0, 1000));

    assert!(seg1.overlaps_with(&seg2));
    assert!(!seg1.overlaps_with(&seg3));
}

#[test]
fn test_segment_trimming() {
    let mut segment = Segment::video("mat1", TimeRange::new(1000, 3000), TimeRange::new(0, 3000));

    segment.trim_start(500);
    assert_eq!(segment.target_timerange.start, 1500);
    assert_eq!(segment.target_timerange.duration, 2500);

    segment.trim_end(500);
    assert_eq!(segment.target_timerange.duration, 2000);
}

#[test]
fn test_segment_split() {
    let segment = Segment::video("mat1", TimeRange::new(0, 2000), TimeRange::new(0, 2000));

    let result = segment.split_at(800);
    assert!(result.is_ok());

    let (first, second) = result.unwrap();
    assert_eq!(first.target_timerange.duration, 800);
    assert_eq!(second.target_timerange.start, 800);
    assert_eq!(second.target_timerange.duration, 1200);
}

#[test]
fn segment_test_conversions() {
    let pos: (i32, i32) = Position::new(100, 200).into();
    assert_eq!(pos, (100, 200));

    let scale: (i32, i32) = Scale::new(1920, 1080).into();
    assert_eq!(scale, (1920, 1080));

    let range: (u32, u32) = TimeRange::new(1000, 2000).into();
    assert_eq!(range, (1000, 2000));
}

#[test]
fn segment_test_display() {
    let segment_type = SegmentType::Video;
    assert_eq!(segment_type.to_string(), "video");

    let range = TimeRange::new(1000, 2000);
    assert_eq!(range.to_string(), "1000ms-3000ms");

    let pos = Position::new(100, 200);
    assert_eq!(pos.to_string(), "(100, 200)");

    let scale = Scale::new(1920, 1080);
    assert_eq!(scale.to_string(), "1920x1080");
}

#[test]
fn test_range_contains_bounds() {
    let range = TimeRange::new(250, 750);
    assert!(range.contains(250));
    assert!(!range.contains(1000));
}

#[test]
fn test_trim_zero_is_noop() {
    let before = Segment::audio("s1", "m1", TimeRange::new(100, 400), TimeRange::new(50, 800));
    let mut after_start = before.clone();
    after_start.trim_start(0);
    assert_eq!(after_start, before);

    let mut after_end = before.clone();
    after_end.trim_end(0);
    assert_eq!(after_end, before);
}

#[test]
fn test_playback_speed_milli() {
    let segment = Segment::video("mat1", TimeRange::new(1000, 2000), TimeRange::new(0, 1000));
    assert_eq!(segment.playback_speed_milli(), 500);
    assert!(segment.needs_speed_adjustment());

    let plain = Segment::video("mat1", TimeRange::new(0, 1000), TimeRange::new(0, 1000));
    assert_eq!(plain.playback_speed_milli(), 1000);
    assert!(!plain.needs_speed_adjustment());
}

#[test]
fn test_split_round_trip_partition() {
    let segment = Segment::audio(
        "s1",
        "m1",
        TimeRange::new(2000, 3000),
        TimeRange::new(100, 6000),
    );
    let (first, second) = segment.split_at(2000 + 1200).unwrap();

    assert_eq!(first.target_timerange.start, 2000);
    assert_eq!(first.target_timerange.duration, 1200);
    assert_eq!(second.target_timerange.start, 3200);
    assert_eq!(second.target_timerange.duration, 1800);

    // The source windows partition the original with the pre-split ratio
    // of two source milliseconds per target millisecond.
    assert_eq!(first.source_timerange.start, 100);
    assert_eq!(first.source_timerange.duration, 2400);
    assert_eq!(second.source_timerange.start, 2500);
    assert_eq!(second.source_timerange.duration, 3600);
    assert_eq!(
        first.source_timerange.duration + second.source_timerange.duration,
        6000
    );

    assert_eq!(first.id, "s1_part1");
    assert_eq!(second.id, "s1_part2");

    // Splitting exactly at the end of the window is out of range.
    assert!(segment.split_at(5000).is_err());
    assert!(segment.split_at(2000).is_ok());
}

#[test]
fn test_segment_validate_cases() {
    let ok = Segment::audio("s1", "m1", TimeRange::new(0, 1000), TimeRange::new(0, 1000));
    assert!(ok.validate().is_ok());

    let no_id = Segment::new("", SegmentType::Video, "m1", TimeRange::new(0, 1), TimeRange::new(0, 1));
    assert!(no_id.validate().is_err());

    let zero_target = Segment::new("s", SegmentType::Video, "m1", TimeRange::new(0, 0), TimeRange::new(0, 1));
    assert!(zero_target.validate().is_err());

    let zero_source = Segment::new("s", SegmentType::Video, "m1", TimeRange::new(0, 1), TimeRange::new(0, 0));
    assert!(zero_source.validate().is_err());

    let bad_scale = ok.clone().scale(Dimension::new(0, 10));
    assert!(bad_scale.validate().is_err());
}

#[test]
fn test_fresh_segment_id_length() {
    let seg = Segment::video("mat1", TimeRange::new(0, 1000), TimeRange::new(0, 1000));
    assert_eq!(seg.id.chars().count(), 36);
    let other = Segment::video("mat1", TimeRange::new(0, 1000), TimeRange::new(0, 1000));
    assert_ne!(seg.id, other.id);
}
