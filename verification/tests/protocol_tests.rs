use cluv::material::{Material, VideoMaterial};
use cluv::protocol::{
    CutProtocol, DimensionProto, ProtocolSegment, ProtocolTrack, TimeRangeProto,
    VideoMaterialProto,
};
use cluv::segment::{Position, Segment, SegmentType, TimeRange};
use cluv::session::EditSession;
use cluv::stage::Stage;
use cluv::track::{Track, TrackType};
use cluv::material::Dimension;

fn sample_video_proto(id: &str, src: &str) -> VideoMaterialProto {
    VideoMaterialProto {
        id: id.to_string(),
        src: src.to_string(),
        dimension: DimensionProto { width: 1920, height: 1080 },
        duration: None,
        fps: None,
        codec: None,
        bitrate: None,
    }
}

#[test]
fn test_protocol_creation() {
    let protocol = CutProtocol::new(1920, 1080);
    assert_eq!(protocol.stage.width, 1920);
    assert_eq!(protocol.stage.height, 1080);
    assert!(protocol.materials.videos.is_empty());
    assert!(protocol.tracks.is_empty());
}

#[test]
fn test_protocol_validation() {
    let mut protocol = CutProtocol::new(1920, 1080);
    assert!(protocol.validate().is_ok());

    protocol.add_video_material(sample_video_proto("video1", "test.mp4"));
    let track = ProtocolTrack {
        id: "track1".to_string(),
        track_type: "video".to_string(),
        segments: vec![ProtocolSegment {
            id: "segment1".to_string(),
            segment_type: "video".to_string(),
            material_id: "video1".to_string(),
            target_timerange: TimeRangeProto { start: 0, duration: 10000 },
            source_timerange: TimeRangeProto { start: 0, duration: 10000 },
            scale: None,
            position: None,
        }],
    };
    protocol.add_track(track);

    assert!(protocol.validate().is_ok());
    assert_eq!(protocol.total_duration(), 10000);
}

#[test]
fn test_protocol_duplicate_ids() {
    let mut protocol = CutProtocol::new(1920, 1080);
    protocol.add_video_material(sample_video_proto("video1", "a.mp4"));
    protocol.add_video_material(sample_video_proto("video1", "b.mp4"));
    let err = protocol.validate().unwrap_err();
    assert_eq!(err.message(), "Duplicate material ID: video1");

    let mut bad_stage = CutProtocol::new(0, 1080);
    assert!(bad_stage.validate().is_err());
    bad_stage.stage.width = 1920;
    assert!(bad_stage.validate().is_ok());
}

#[test]
fn test_unknown_type_tags() {
    let mut protocol = CutProtocol::new(1920, 1080);
    protocol.add_track(ProtocolTrack {
        id: "t1".to_string(),
        track_type: "hologram".to_string(),
        segments: Vec::new(),
    });
    let err = CutProtocol::to_session(&protocol).unwrap_err();
    assert_eq!(err.message(), "Unknown track type: hologram");
}

fn sample_session() -> EditSession {
    let mut session = EditSession::new(Stage::new(1920, 1080));
    session.add_material(Material::Video(
        VideoMaterial::new("video1", "test.mp4", 1920, 1080).with_duration(30000),
    ));
    let mut track = Track::new("track1", TrackType::Video);
    track.add_segment(
        Segment::new(
            "segment1",
            SegmentType::Video,
            "video1",
            TimeRange::new(0, 10000),
            TimeRange::new(0, 10000),
        )
        .scale(Dimension::new(1280, 720))
        .position(Position::new(0, 0)),
    );
    session.add_track(track);
    session
}

#[test]
fn test_session_round_trip() {
    // Protocol round trip: for a session with kind-grouped materials and
    // default track attributes, the rebuilt session equals the original
    // field for field, segment order included.
    let session = sample_session();
    let protocol = session.to_protocol();
    let rebuilt = CutProtocol::to_session(&protocol).unwrap();

    assert_eq!(rebuilt.stage, session.stage);
    assert_eq!(rebuilt.materials, session.materials);
    assert_eq!(rebuilt.tracks.len(), session.tracks.len());
    assert_eq!(rebuilt.tracks[0].id, session.tracks[0].id);
    assert_eq!(rebuilt.tracks[0].track_type, session.tracks[0].track_type);
    assert_eq!(rebuilt.tracks[0].segments, session.tracks[0].segments);
    assert_eq!(rebuilt, session);
}

#[test]
fn test_protocol_segment_fields_survive() {
    let session = sample_session();
    let protocol = session.to_protocol();
    assert_eq!(protocol.materials.videos.len(), 1);
    assert_eq!(protocol.materials.videos[0].id, "video1");
    assert_eq!(protocol.materials.videos[0].duration, Some(30000));
    assert_eq!(protocol.tracks[0].track_type, "video");
    assert_eq!(protocol.tracks[0].segments[0].segment_type, "video");
    assert_eq!(protocol.tracks[0].segments[0].target_timerange.duration, 10000);
    assert_eq!(
        protocol.tracks[0].segments[0].scale,
        Some(cluv::protocol::ScaleProto { width: 1280, height: 720 })
    );
}
