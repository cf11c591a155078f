//! The protocol document: the serialized form of an edit session.
//!
//! The protocol mirrors the session field for field. Converting a session to
//! a protocol is total; the reverse direction fails exactly on unrecognized
//! track or segment type tags. Reading and writing the document as JSON is
//! the embedder's concern; this module owns the structure and the
//! conversions.

use vstd::prelude::*;

use crate::error::CluvError;
use crate::strutil::string_views;
use crate::kvlist::KvList;
use crate::material::{AudioMaterial, Dimension, ImageMaterial, Material, VideoMaterial};
use crate::segment::{Position, Scale, Segment, SegmentType, TimeRange};
use crate::session::EditSession;
use crate::stage::Stage;
use crate::track::{Track, TrackType};

verus! {

/// Stage configuration in protocol form.
#[derive(Debug, Clone, Copy, PartialEq, Eq, Structural)]
pub struct StageConfig {
    /// Stage width in pixels.
    pub width: i32,
    /// Stage height in pixels.
    pub height: i32,
}

/// Dimension in protocol form.
#[derive(Debug, Clone, Copy, PartialEq, Eq, Structural)]
pub struct DimensionProto {
    /// Width in pixels.
    pub width: i32,
    /// Height in pixels.
    pub height: i32,
}

/// Time range in protocol form.
#[derive(Debug, Clone, Copy, PartialEq, Eq, Structural)]
pub struct TimeRangeProto {
    /// Start time in milliseconds.
    pub start: u32,
    /// Duration in milliseconds.
    pub duration: u32,
}

/// Scale in protocol form.
#[derive(Debug, Clone, Copy, PartialEq, Eq, Structural)]
pub struct ScaleProto {
    /// Width in pixels.
    pub width: i32,
    /// Height in pixels.
    pub height: i32,
}

/// Position in protocol form.
#[derive(Debug, Clone, Copy, PartialEq, Eq, Structural)]
pub struct PositionProto {
    /// X coordinate in pixels.
    pub x: i32,
    /// Y coordinate in pixels.
    pub y: i32,
}

/// Video material in protocol form.
#[derive(Debug, Clone, PartialEq, Eq)]
pub struct VideoMaterialProto {
    /// Unique identifier.
    pub id: String,
    /// Source file path.
    pub src: String,
    /// Video dimensions.
    pub dimension: DimensionProto,
    /// Duration in milliseconds, when known.
    pub duration: Option<u32>,
    /// Frame rate in thousandths of a frame per second, when known.
    pub fps: Option<u32>,
    /// Video codec, when known.
    pub codec: Option<String>,
    /// Bitrate in kbps, when known.
    pub bitrate: Option<u32>,
}

/// Image material in protocol form.
#[derive(Debug, Clone, PartialEq, Eq)]
pub struct ImageMaterialProto {
    /// Unique identifier.
    pub id: String,
    /// Source file path.
    pub src: String,
    /// Image dimensions.
    pub dimension: DimensionProto,
    /// Image format, when known.
    pub format: Option<String>,
}

/// Audio material in protocol form.
#[derive(Debug, Clone, PartialEq, Eq)]
pub struct AudioMaterialProto {
    /// Unique identifier.
    pub id: String,
    /// Source file path.
    pub src: String,
    /// Duration in milliseconds, when known.
    pub duration: Option<u32>,
    /// Sample rate in Hz, when known.
    pub sample_rate: Option<u32>,
    /// Number of channels, when known.
    pub channels: Option<u32>,
    /// Audio codec, when known.
    pub codec: Option<String>,
    /// Bitrate in kbps, when known.
    pub bitrate: Option<u32>,
}

/// Materials container, grouped by kind.
#[derive(Debug, Clone, PartialEq, Eq)]
pub struct Materials {
    /// Video materials.
    pub videos: Vec<VideoMaterialProto>,
    /// Image materials.
    pub images: Vec<ImageMaterialProto>,
    /// Audio materials.
    pub audios: Vec<AudioMaterialProto>,
}

/// Segment in protocol form; the type is a lowercase tag.
#[derive(Debug, Clone, PartialEq, Eq)]
pub struct ProtocolSegment {
    /// Segment identifier.
    pub id: String,
    /// Segment type tag.
    pub segment_type: String,
    /// Referenced material identifier.
    pub material_id: String,
    /// Target window on the timeline.
    pub target_timerange: TimeRangeProto,
    /// Source window in the material.
    pub source_timerange: TimeRangeProto,
    /// Visual size, when overridden.
    pub scale: Option<ScaleProto>,
    /// Stage position, when overridden.
    pub position: Option<PositionProto>,
}

/// Track in protocol form; the type is a lowercase tag.
#[derive(Debug, Clone, PartialEq, Eq)]
pub struct ProtocolTrack {
    /// Track identifier.
    pub id: String,
    /// Track type tag.
    pub track_type: String,
    /// Track segments, in order.
    pub segments: Vec<ProtocolSegment>,
}

/// The protocol document.
#[derive(Debug, Clone, PartialEq, Eq)]
pub struct CutProtocol {
    /// Stage configuration.
    pub stage: StageConfig,
    /// Available materials.
    pub materials: Materials,
    /// Timeline tracks.
    pub tracks: Vec<ProtocolTrack>,
}

/// Export kind selector.
#[derive(Debug, Clone, Copy, PartialEq, Eq, Structural)]
pub enum ExportType {
    /// Export as video.
    Video,
    /// Export audio only.
    Audio,
    /// Export as an image sequence.
    Image,
}

/// Export request in protocol form.
#[derive(Debug, Clone, PartialEq, Eq)]
pub struct ExportConfig {
    /// Export kind.
    pub export_type: ExportType,
    /// Output file path.
    pub output_file: String,
    /// Additional export options.
    pub options: Option<KvList>,
}

impl ExportType {
    /// The lowercase tag of an export kind.
    pub open spec fn tag_view(&self) -> Seq<char> {
        match self {
            ExportType::Video => "video"@,
            ExportType::Audio => "audio"@,
            ExportType::Image => "image"@,
        }
    }

    /// The lowercase tag for this export kind.
    pub fn to_string(&self) -> (r: String)
        ensures
            r@ == self.tag_view(),
    {
        match self {
            ExportType::Video => String::from_str("video"),
            ExportType::Audio => String::from_str("audio"),
            ExportType::Image => String::from_str("image"),
        }
    }
}

/// The video materials of a material sequence, in order.
pub open spec fn videos_of(ms: Seq<Material>) -> Seq<VideoMaterial>
    decreases ms.len(),
{
    if ms.len() == 0 {
        Seq::empty()
    } else {
        let rest = videos_of(ms.drop_last());
        match ms.last() {
            Material::Video(v) => rest.push(v),
            _ => rest,
        }
    }
}

/// The audio materials of a material sequence, in order.
pub open spec fn audios_of(ms: Seq<Material>) -> Seq<AudioMaterial>
    decreases ms.len(),
{
    if ms.len() == 0 {
        Seq::empty()
    } else {
        let rest = audios_of(ms.drop_last());
        match ms.last() {
            Material::Audio(a) => rest.push(a),
            _ => rest,
        }
    }
}

/// The image materials of a material sequence, in order.
pub open spec fn images_of(ms: Seq<Material>) -> Seq<ImageMaterial>
    decreases ms.len(),
{
    if ms.len() == 0 {
        Seq::empty()
    } else {
        let rest = images_of(ms.drop_last());
        match ms.last() {
            Material::Image(img) => rest.push(img),
            _ => rest,
        }
    }
}

/// A protocol video entry carrying exactly the fields of a video material.
pub open spec fn video_matches(p: VideoMaterialProto, v: VideoMaterial) -> bool {
    &&& p.id == v.id
    &&& p.src == v.src
    &&& p.dimension.width == v.dimension.width
    &&& p.dimension.height == v.dimension.height
    &&& p.duration == v.duration
    &&& p.fps == v.fps
    &&& p.codec == v.codec
    &&& p.bitrate == v.bitrate
}

/// A protocol audio entry carrying exactly the fields of an audio material.
pub open spec fn audio_matches(p: AudioMaterialProto, a: AudioMaterial) -> bool {
    &&& p.id == a.id
    &&& p.src == a.src
    &&& p.duration == a.duration
    &&& p.sample_rate == a.sample_rate
    &&& p.channels == a.channels
    &&& p.codec == a.codec
    &&& p.bitrate == a.bitrate
}

/// A protocol image entry carrying exactly the fields of an image material.
pub open spec fn image_matches(p: ImageMaterialProto, i: ImageMaterial) -> bool {
    &&& p.id == i.id
    &&& p.src == i.src
    &&& p.dimension.width == i.dimension.width
    &&& p.dimension.height == i.dimension.height
    &&& p.format == i.format
}

/// A protocol segment carrying exactly the fields of a segment.
pub open spec fn seg_matches(p: ProtocolSegment, s: Segment) -> bool {
    &&& p.id == s.id
    &&& p.segment_type@ == s.segment_type.tag_view()
    &&& p.material_id == s.material_id
    &&& p.target_timerange.start == s.target_timerange.start
    &&& p.target_timerange.duration == s.target_timerange.duration
    &&& p.source_timerange.start == s.source_timerange.start
    &&& p.source_timerange.duration == s.source_timerange.duration
    &&& (match (p.scale, s.scale) {
        (Some(ps), Some(d)) => ps.width == d.width && ps.height == d.height,
        (None, None) => true,
        _ => false,
    })
    &&& (match (p.position, s.position) {
        (Some(pp), Some(q)) => pp.x == q.x && pp.y == q.y,
        (None, None) => true,
        _ => false,
    })
}

/// A protocol track carrying exactly the fields of a track.
pub open spec fn track_matches(p: ProtocolTrack, t: Track) -> bool {
    &&& p.id == t.id
    &&& p.track_type@ == t.track_type.tag_view()
    &&& p.segments@.len() == t.segments@.len()
    &&& forall|k: int|
        0 <= k < p.segments@.len() ==> seg_matches(
            #[trigger] p.segments@[k],
            t.segments@[k],
        )
}

/// The protocol document carrying exactly the content of a session: the
/// stage, the materials grouped by kind in their original relative order,
/// and the tracks with their segments in order.
pub open spec fn protocol_matches(p: CutProtocol, s: EditSession) -> bool {
    &&& p.stage.width == s.stage.width
    &&& p.stage.height == s.stage.height
    &&& p.materials.videos@.len() == videos_of(s.materials@).len()
    &&& forall|k: int|
        0 <= k < p.materials.videos@.len() ==> video_matches(
            #[trigger] p.materials.videos@[k],
            videos_of(s.materials@)[k],
        )
    &&& p.materials.audios@.len() == audios_of(s.materials@).len()
    &&& forall|k: int|
        0 <= k < p.materials.audios@.len() ==> audio_matches(
            #[trigger] p.materials.audios@[k],
            audios_of(s.materials@)[k],
        )
    &&& p.materials.images@.len() == images_of(s.materials@).len()
    &&& forall|k: int|
        0 <= k < p.materials.images@.len() ==> image_matches(
            #[trigger] p.materials.images@[k],
            images_of(s.materials@)[k],
        )
    &&& p.tracks@.len() == s.tracks@.len()
    &&& forall|k: int|
        0 <= k < p.tracks@.len() ==> track_matches(#[trigger] p.tracks@[k], s.tracks@[k])
}

/// Copy an optional string.
fn clone_opt_string(s: &Option<String>) -> (r: Option<String>)
    ensures
        r == *s,
{
    match s {
        Some(v) => Some(v.clone()),
        None => None,
    }
}

impl CutProtocol {
    /// Create an empty protocol document for a stage of the given size.
    pub fn new(stage_width: i32, stage_height: i32) -> (r: CutProtocol)
        ensures
            r.stage == (StageConfig { width: stage_width, height: stage_height }),
            r.materials.videos@.len() == 0,
            r.materials.images@.len() == 0,
            r.materials.audios@.len() == 0,
            r.tracks@.len() == 0,
    {
        CutProtocol {
            stage: StageConfig { width: stage_width, height: stage_height },
            materials: Materials { videos: Vec::new(), images: Vec::new(), audios: Vec::new() },
            tracks: Vec::new(),
        }
    }

    /// Project a session onto a protocol document. This direction is total
    /// and loses only per-track playback attributes, which the document
    /// does not carry.
    pub fn from_session(session: &EditSession) -> (r: CutProtocol)
        ensures
            protocol_matches(r, *session),
    {
        let mut videos: Vec<VideoMaterialProto> = Vec::new();
        let mut audios: Vec<AudioMaterialProto> = Vec::new();
        let mut images: Vec<ImageMaterialProto> = Vec::new();
        let nm = session.materials.len();
        let mut i: usize = 0;
        while i < nm
            invariant
                nm == session.materials@.len(),
                0 <= i <= nm,
                videos@.len() == videos_of(session.materials@.subrange(0, i as int)).len(),
                forall|k: int|
                    0 <= k < videos@.len() ==> video_matches(
                        #[trigger] videos@[k],
                        videos_of(session.materials@.subrange(0, i as int))[k],
                    ),
                audios@.len() == audios_of(session.materials@.subrange(0, i as int)).len(),
                forall|k: int|
                    0 <= k < audios@.len() ==> audio_matches(
                        #[trigger] audios@[k],
                        audios_of(session.materials@.subrange(0, i as int))[k],
                    ),
                images@.len() == images_of(session.materials@.subrange(0, i as int)).len(),
                forall|k: int|
                    0 <= k < images@.len() ==> image_matches(
                        #[trigger] images@[k],
                        images_of(session.materials@.subrange(0, i as int))[k],
                    ),
            decreases nm - i,
        {
            proof {
                let t = session.materials@.subrange(0, i + 1);
                assert(t.drop_last() =~= session.materials@.subrange(0, i as int));
                assert(t.last() == session.materials@[i as int]);
            }
            match &session.materials[i] {
                Material::Video(v) => {
                    videos.push(
                        VideoMaterialProto {
                            id: v.id.clone(),
                            src: v.src.clone(),
                            dimension: DimensionProto {
                                width: v.dimension.width,
                                height: v.dimension.height,
                            },
                            duration: v.duration,
                            fps: v.fps,
                            codec: clone_opt_string(&v.codec),
                            bitrate: v.bitrate,
                        },
                    );
                },
                Material::Audio(a) => {
                    audios.push(
                        AudioMaterialProto {
                            id: a.id.clone(),
                            src: a.src.clone(),
                            duration: a.duration,
                            sample_rate: a.sample_rate,
                            channels: a.channels,
                            codec: clone_opt_string(&a.codec),
                            bitrate: a.bitrate,
                        },
                    );
                },
                Material::Image(img) => {
                    images.push(
                        ImageMaterialProto {
                            id: img.id.clone(),
                            src: img.src.clone(),
                            dimension: DimensionProto {
                                width: img.dimension.width,
                                height: img.dimension.height,
                            },
                            format: clone_opt_string(&img.format),
                        },
                    );
                },
            }
            i = i + 1;
        }

        let mut tracks: Vec<ProtocolTrack> = Vec::new();
        let nt = session.tracks.len();
        let mut t: usize = 0;
        while t < nt
            invariant
                nt == session.tracks@.len(),
                0 <= t <= nt,
                tracks@.len() == t,
                forall|k: int|
                    0 <= k < t ==> track_matches(
                        #[trigger] tracks@[k],
                        session.tracks@[k],
                    ),
            decreases nt - t,
        {
            let track = &session.tracks[t];
            let ns = track.segments.len();
            let mut segs: Vec<ProtocolSegment> = Vec::new();
            let mut k: usize = 0;
            while k < ns
                invariant
                    nt == session.tracks@.len(),
                    0 <= t < nt,
                    track == &session.tracks@[t as int],
                    ns == track.segments@.len(),
                    0 <= k <= ns,
                    segs@.len() == k,
                    forall|j: int|
                        0 <= j < k ==> seg_matches(#[trigger] segs@[j], track.segments@[j]),
                decreases ns - k,
            {
                let s = &track.segments[k];
                let scale = match s.scale {
                    Some(d) => Some(ScaleProto { width: d.width, height: d.height }),
                    None => None,
                };
                let position = match s.position {
                    Some(q) => Some(PositionProto { x: q.x, y: q.y }),
                    None => None,
                };
                segs.push(
                    ProtocolSegment {
                        id: s.id.clone(),
                        segment_type: s.segment_type.to_string(),
                        material_id: s.material_id.clone(),
                        target_timerange: TimeRangeProto {
                            start: s.target_timerange.start,
                            duration: s.target_timerange.duration,
                        },
                        source_timerange: TimeRangeProto {
                            start: s.source_timerange.start,
                            duration: s.source_timerange.duration,
                        },
                        scale,
                        position,
                    },
                );
                k = k + 1;
            }
            tracks.push(
                ProtocolTrack {
                    id: track.id.clone(),
                    track_type: track.track_type.to_string(),
                    segments: segs,
                },
            );
            t = t + 1;
        }

        proof {
            assert(session.materials@.subrange(0, nm as int) =~= session.materials@);
        }
        CutProtocol {
            stage: StageConfig { width: session.stage.width, height: session.stage.height },
            materials: Materials { videos, images, audios },
            tracks,
        }
    }

    /// Add a video material.
    pub fn add_video_material(&mut self, material: VideoMaterialProto)
        ensures
            *final(self) == (CutProtocol { materials: final(self).materials, ..*old(self) }),
            final(self).materials == (Materials {
                videos: final(self).materials.videos,
                ..old(self).materials
            }),
            final(self).materials.videos@ == old(self).materials.videos@.push(material),
    {
        self.materials.videos.push(material);
    }

    /// Add an audio material.
    pub fn add_audio_material(&mut self, material: AudioMaterialProto)
        ensures
            *final(self) == (CutProtocol { materials: final(self).materials, ..*old(self) }),
            final(self).materials == (Materials {
                audios: final(self).materials.audios,
                ..old(self).materials
            }),
            final(self).materials.audios@ == old(self).materials.audios@.push(material),
    {
        self.materials.audios.push(material);
    }

    /// Add an image material.
    pub fn add_image_material(&mut self, material: ImageMaterialProto)
        ensures
            *final(self) == (CutProtocol { materials: final(self).materials, ..*old(self) }),
            final(self).materials == (Materials {
                images: final(self).materials.images,
                ..old(self).materials
            }),
            final(self).materials.images@ == old(self).materials.images@.push(material),
    {
        self.materials.images.push(material);
    }

    /// Add a track.
    pub fn add_track(&mut self, track: ProtocolTrack)
        ensures
            *final(self) == (CutProtocol { tracks: final(self).tracks, ..*old(self) }),
            final(self).tracks@ == old(self).tracks@.push(track),
    {
        self.tracks.push(track);
    }

    /// The greatest segment end over all tracks, or 0 when there are no
    /// segments.
    pub fn total_duration(&self) -> (r: u32)
        requires
            forall|t: int, k: int|
                0 <= t < self.tracks@.len() && 0 <= k < (#[trigger] self.tracks@[t]).segments@.len()
                    ==> (#[trigger] self.tracks@[t].segments@[k]).target_timerange.start as int
                    + self.tracks@[t].segments@[k].target_timerange.duration as int <= u32::MAX,
        ensures
            forall|t: int, k: int|
                0 <= t < self.tracks@.len() && 0 <= k < (#[trigger] self.tracks@[t]).segments@.len()
                    ==> (#[trigger] self.tracks@[t].segments@[k]).target_timerange.start as int
                    + self.tracks@[t].segments@[k].target_timerange.duration as int <= r as int,
            r == 0 || exists|t: int, k: int|
                0 <= t < self.tracks@.len() && 0 <= k < (#[trigger] self.tracks@[t]).segments@.len()
                    && (#[trigger] self.tracks@[t].segments@[k]).target_timerange.start as int
                    + self.tracks@[t].segments@[k].target_timerange.duration as int == r as int,
    {
        let nt = self.tracks.len();
        let mut best: u32 = 0;
        let mut t: usize = 0;
        while t < nt
            invariant
                nt == self.tracks@.len(),
                0 <= t <= nt,
                forall|ti: int, k: int|
                    0 <= ti < nt && 0 <= k < (#[trigger] self.tracks@[ti]).segments@.len() ==> (
                    #[trigger] self.tracks@[ti].segments@[k]).target_timerange.start as int
                        + self.tracks@[ti].segments@[k].target_timerange.duration as int
                        <= u32::MAX,
                forall|ti: int, k: int|
                    0 <= ti < t && 0 <= k < (#[trigger] self.tracks@[ti]).segments@.len() ==> (
                    #[trigger] self.tracks@[ti].segments@[k]).target_timerange.start as int
                        + self.tracks@[ti].segments@[k].target_timerange.duration as int
                        <= best as int,
                best == 0 || exists|ti: int, k: int|
                    0 <= ti < t && 0 <= k < (#[trigger] self.tracks@[ti]).segments@.len() && (
                    #[trigger] self.tracks@[ti].segments@[k]).target_timerange.start as int
                        + self.tracks@[ti].segments@[k].target_timerange.duration as int
                        == best as int,
            decreases nt - t,
        {
            let track = &self.tracks[t];
            let ns = track.segments.len();
            let mut k: usize = 0;
            while k < ns
                invariant
                    nt == self.tracks@.len(),
                    0 <= t < nt,
                    track == &self.tracks@[t as int],
                    ns == track.segments@.len(),
                    0 <= k <= ns,
                    forall|ti: int, kk: int|
                        0 <= ti < nt && 0 <= kk < (
                        #[trigger] self.tracks@[ti]).segments@.len() ==> (
                        #[trigger] self.tracks@[ti].segments@[kk]).target_timerange.start as int
                            + self.tracks@[ti].segments@[kk].target_timerange.duration as int
                            <= u32::MAX,
                    forall|ti: int, kk: int|
                        0 <= ti < t && 0 <= kk < (#[trigger] self.tracks@[ti]).segments@.len()
                            ==> (#[trigger] self.tracks@[ti].segments@[kk]).target_timerange.start
                            as int + self.tracks@[ti].segments@[kk].target_timerange.duration
                            as int <= best as int,
                    forall|kk: int|
                        0 <= kk < k ==> (#[trigger] track.segments@[kk]).target_timerange.start
                            as int + track.segments@[kk].target_timerange.duration as int
                            <= best as int,
                    best == 0 || (exists|ti: int, kk: int|
                        0 <= ti < t && 0 <= kk < (#[trigger] self.tracks@[ti]).segments@.len()
                            && (#[trigger] self.tracks@[ti].segments@[kk]).target_timerange.start
                            as int + self.tracks@[ti].segments@[kk].target_timerange.duration
                            as int == best as int) || (exists|kk: int|
                        0 <= kk < k && (#[trigger] track.segments@[kk]).target_timerange.start
                            as int + track.segments@[kk].target_timerange.duration as int
                            == best as int),
                decreases ns - k,
            {
                let tr = track.segments[k].target_timerange;
                let e = tr.start + tr.duration;
                if e > best {
                    best = e;
                }
                k = k + 1;
            }
            t = t + 1;
        }
        best
    }
}

impl Default for CutProtocol {
    /// The default document has a 1920x1080 stage and nothing on it.
    fn default() -> (r: CutProtocol)
        ensures
            r.stage == (StageConfig { width: 1920, height: 1080 }),
            r.materials.videos@.len() == 0,
            r.materials.images@.len() == 0,
            r.materials.audios@.len() == 0,
            r.tracks@.len() == 0,
    {
        CutProtocol::new(1920, 1080)
    }
}

impl Default for Materials {
    /// The default container is empty.
    fn default() -> (r: Materials)
        ensures
            r.videos@.len() == 0,
            r.images@.len() == 0,
            r.audios@.len() == 0,
    {
        Materials { videos: Vec::new(), images: Vec::new(), audios: Vec::new() }
    }
}

} // verus!

verus! {

/// Whether a type tag is one of the five recognized kinds.
pub open spec fn tag_recognized(tag: Seq<char>) -> bool {
    tag == "video"@ || tag == "audio"@ || tag == "image"@ || tag == "text"@ || tag
        == "subtitle"@
}

/// The track kind a recognized tag denotes.
pub open spec fn track_type_of_tag(tag: Seq<char>) -> TrackType {
    if tag == "video"@ {
        TrackType::Video
    } else if tag == "audio"@ {
        TrackType::Audio
    } else if tag == "image"@ {
        TrackType::Image
    } else if tag == "text"@ {
        TrackType::Text
    } else {
        TrackType::Subtitle
    }
}

/// The segment kind a recognized tag denotes.
pub open spec fn seg_type_of_tag(tag: Seq<char>) -> SegmentType {
    if tag == "video"@ {
        SegmentType::Video
    } else if tag == "audio"@ {
        SegmentType::Audio
    } else if tag == "image"@ {
        SegmentType::Image
    } else if tag == "text"@ {
        SegmentType::Text
    } else {
        SegmentType::Subtitle
    }
}

/// Every track and segment type tag of the document is recognized.
pub open spec fn tags_ok(p: CutProtocol) -> bool {
    &&& forall|t: int|
        0 <= t < p.tracks@.len() ==> tag_recognized((#[trigger] p.tracks@[t]).track_type@)
    &&& forall|t: int, k: int|
        0 <= t < p.tracks@.len() && 0 <= k < (#[trigger] p.tracks@[t]).segments@.len()
            ==> tag_recognized((#[trigger] p.tracks@[t].segments@[k]).segment_type@)
}

/// The material a protocol video entry denotes.
pub open spec fn material_of_video_proto(p: VideoMaterialProto) -> Material {
    Material::Video(
        VideoMaterial {
            id: p.id,
            src: p.src,
            dimension: Dimension { width: p.dimension.width, height: p.dimension.height },
            duration: p.duration,
            fps: p.fps,
            codec: p.codec,
            bitrate: p.bitrate,
        },
    )
}

/// The material a protocol audio entry denotes.
pub open spec fn material_of_audio_proto(p: AudioMaterialProto) -> Material {
    Material::Audio(
        AudioMaterial {
            id: p.id,
            src: p.src,
            duration: p.duration,
            sample_rate: p.sample_rate,
            channels: p.channels,
            codec: p.codec,
            bitrate: p.bitrate,
        },
    )
}

/// The material a protocol image entry denotes.
pub open spec fn material_of_image_proto(p: ImageMaterialProto) -> Material {
    Material::Image(
        ImageMaterial {
            id: p.id,
            src: p.src,
            dimension: Dimension { width: p.dimension.width, height: p.dimension.height },
            format: p.format,
        },
    )
}

/// The material list a protocol document denotes: videos, then audios, then
/// images, each group in document order.
pub open spec fn materials_of_protocol(p: CutProtocol) -> Seq<Material> {
    p.materials.videos@.map_values(|v: VideoMaterialProto| material_of_video_proto(v))
        + p.materials.audios@.map_values(|a: AudioMaterialProto| material_of_audio_proto(a))
        + p.materials.images@.map_values(|i: ImageMaterialProto| material_of_image_proto(i))
}

/// The segment a protocol segment denotes, given recognized tags.
pub open spec fn rebuilt_segment(ps: ProtocolSegment, s: Segment) -> bool {
    &&& s.id == ps.id
    &&& s.segment_type == seg_type_of_tag(ps.segment_type@)
    &&& s.material_id == ps.material_id
    &&& s.target_timerange == (TimeRange {
        start: ps.target_timerange.start,
        duration: ps.target_timerange.duration,
    })
    &&& s.source_timerange == (TimeRange {
        start: ps.source_timerange.start,
        duration: ps.source_timerange.duration,
    })
    &&& (match (ps.scale, s.scale) {
        (Some(sp), Some(d)) => d.width == sp.width && d.height == sp.height,
        (None, None) => true,
        _ => false,
    })
    &&& (match (ps.position, s.position) {
        (Some(pp), Some(q)) => q.x == pp.x && q.y == pp.y,
        (None, None) => true,
        _ => false,
    })
}

/// The track a protocol track denotes: default playback attributes, and the
/// segments rebuilt in order.
pub open spec fn rebuilt_track(pt: ProtocolTrack, t: Track) -> bool {
    &&& t.id == pt.id
    &&& t.track_type == track_type_of_tag(pt.track_type@)
    &&& t.enabled
    &&& !t.muted
    &&& t.volume == 1000
    &&& t.opacity == 1000
    &&& t.blend_mode is None
    &&& t.segments@.len() == pt.segments@.len()
    &&& forall|k: int|
        0 <= k < pt.segments@.len() ==> rebuilt_segment(#[trigger] pt.segments@[k], t.segments@[k])
}

/// The session a protocol document denotes, when all its tags are
/// recognized.
pub open spec fn rebuilt_session(p: CutProtocol, s: EditSession) -> bool {
    &&& s.stage == (Stage { width: p.stage.width, height: p.stage.height })
    &&& s.materials@ == materials_of_protocol(p)
    &&& s.tracks@.len() == p.tracks@.len()
    &&& forall|t: int|
        0 <= t < p.tracks@.len() ==> rebuilt_track(#[trigger] p.tracks@[t], s.tracks@[t])
}

impl CutProtocol {
    /// Rebuild a session from a protocol document.
    ///
    /// Succeeds exactly when every track and segment type tag is
    /// recognized; the rebuilt tracks carry default playback attributes,
    /// which the document does not encode.
    pub fn to_session(protocol: &CutProtocol) -> (r: Result<EditSession, CluvError>)
        ensures
            r is Ok <==> tags_ok(*protocol),
            r matches Ok(s) ==> rebuilt_session(*protocol, s),
            r matches Err(e) ==> e matches CluvError::InvalidParams(m) && ((exists|t: int|
                0 <= t < protocol.tracks@.len() && !tag_recognized(
                    (#[trigger] protocol.tracks@[t]).track_type@,
                ) && m@ == "Unknown track type: "@ + protocol.tracks@[t].track_type@) || (exists|
                t: int,
                k: int,
            |
                0 <= t < protocol.tracks@.len() && 0 <= k < (
                #[trigger] protocol.tracks@[t]).segments@.len() && !tag_recognized(
                    (#[trigger] protocol.tracks@[t].segments@[k]).segment_type@,
                ) && m@ == "Unknown segment type: "@
                    + protocol.tracks@[t].segments@[k].segment_type@)),
    {
        let mut materials: Vec<Material> = Vec::new();
        let nv = protocol.materials.videos.len();
        let mut i: usize = 0;
        while i < nv
            invariant
                nv == protocol.materials.videos@.len(),
                0 <= i <= nv,
                materials@ == protocol.materials.videos@.subrange(0, i as int).map_values(
                    |v: VideoMaterialProto| material_of_video_proto(v),
                ),
            decreases nv - i,
        {
            let v = &protocol.materials.videos[i];
            materials.push(
                Material::Video(
                    VideoMaterial {
                        id: v.id.clone(),
                        src: v.src.clone(),
                        dimension: Dimension {
                            width: v.dimension.width,
                            height: v.dimension.height,
                        },
                        duration: v.duration,
                        fps: v.fps,
                        codec: clone_opt_string(&v.codec),
                        bitrate: v.bitrate,
                    },
                ),
            );
            assert(materials@ =~= protocol.materials.videos@.subrange(0, i + 1).map_values(
                |v: VideoMaterialProto| material_of_video_proto(v),
            ));
            i = i + 1;
        }
        assert(protocol.materials.videos@.subrange(0, nv as int) =~= protocol.materials.videos@);

        let na = protocol.materials.audios.len();
        let mut i: usize = 0;
        while i < na
            invariant
                nv == protocol.materials.videos@.len(),
                na == protocol.materials.audios@.len(),
                0 <= i <= na,
                materials@ == protocol.materials.videos@.map_values(
                    |v: VideoMaterialProto| material_of_video_proto(v),
                ) + protocol.materials.audios@.subrange(0, i as int).map_values(
                    |a: AudioMaterialProto| material_of_audio_proto(a),
                ),
            decreases na - i,
        {
            let a = &protocol.materials.audios[i];
            materials.push(
                Material::Audio(
                    AudioMaterial {
                        id: a.id.clone(),
                        src: a.src.clone(),
                        duration: a.duration,
                        sample_rate: a.sample_rate,
                        channels: a.channels,
                        codec: clone_opt_string(&a.codec),
                        bitrate: a.bitrate,
                    },
                ),
            );
            assert(materials@ =~= protocol.materials.videos@.map_values(
                |v: VideoMaterialProto| material_of_video_proto(v),
            ) + protocol.materials.audios@.subrange(0, i + 1).map_values(
                |a: AudioMaterialProto| material_of_audio_proto(a),
            ));
            i = i + 1;
        }
        assert(protocol.materials.audios@.subrange(0, na as int) =~= protocol.materials.audios@);

        let ni = protocol.materials.images.len();
        let mut i: usize = 0;
        while i < ni
            invariant
                nv == protocol.materials.videos@.len(),
                na == protocol.materials.audios@.len(),
                ni == protocol.materials.images@.len(),
                0 <= i <= ni,
                materials@ == protocol.materials.videos@.map_values(
                    |v: VideoMaterialProto| material_of_video_proto(v),
                ) + protocol.materials.audios@.map_values(
                    |a: AudioMaterialProto| material_of_audio_proto(a),
                ) + protocol.materials.images@.subrange(0, i as int).map_values(
                    |im: ImageMaterialProto| material_of_image_proto(im),
                ),
            decreases ni - i,
        {
            let im = &protocol.materials.images[i];
            materials.push(
                Material::Image(
                    ImageMaterial {
                        id: im.id.clone(),
                        src: im.src.clone(),
                        dimension: Dimension {
                            width: im.dimension.width,
                            height: im.dimension.height,
                        },
                        format: clone_opt_string(&im.format),
                    },
                ),
            );
            assert(materials@ =~= protocol.materials.videos@.map_values(
                |v: VideoMaterialProto| material_of_video_proto(v),
            ) + protocol.materials.audios@.map_values(
                |a: AudioMaterialProto| material_of_audio_proto(a),
            ) + protocol.materials.images@.subrange(0, i + 1).map_values(
                |im: ImageMaterialProto| material_of_image_proto(im),
            ));
            i = i + 1;
        }
        assert(protocol.materials.images@.subrange(0, ni as int) =~= protocol.materials.images@);
        assert(materials@ == materials_of_protocol(*protocol));

        let mut tracks: Vec<Track> = Vec::new();
        let nt = protocol.tracks.len();
        let mut t: usize = 0;
        while t < nt
            invariant
                nt == protocol.tracks@.len(),
                0 <= t <= nt,
                materials@ == materials_of_protocol(*protocol),
                tracks@.len() == t,
                forall|j: int|
                    0 <= j < t ==> tag_recognized(
                        (#[trigger] protocol.tracks@[j]).track_type@,
                    ),
                forall|j: int, k: int|
                    0 <= j < t && 0 <= k < (#[trigger] protocol.tracks@[j]).segments@.len()
                        ==> tag_recognized(
                        (#[trigger] protocol.tracks@[j].segments@[k]).segment_type@,
                    ),
                forall|j: int|
                    0 <= j < t ==> rebuilt_track(#[trigger] protocol.tracks@[j], tracks@[j]),
            decreases nt - t,
        {
            let pt = &protocol.tracks[t];
            let tag = pt.track_type.as_str();
            let track_type = if crate::strutil::str_eq(tag, "video") {
                TrackType::Video
            } else if crate::strutil::str_eq(tag, "audio") {
                TrackType::Audio
            } else if crate::strutil::str_eq(tag, "image") {
                TrackType::Image
            } else if crate::strutil::str_eq(tag, "text") {
                TrackType::Text
            } else if crate::strutil::str_eq(tag, "subtitle") {
                TrackType::Subtitle
            } else {
                let mut msg = String::from_str("Unknown track type: ");
                msg.append(tag);
                proof {
                    assert(msg@ =~= "Unknown track type: "@
                        + protocol.tracks@[t as int].track_type@);
                }
                return Err(CluvError::InvalidParams(msg));
            };

            let ns = pt.segments.len();
            let mut segs: Vec<Segment> = Vec::new();
            let mut k: usize = 0;
            while k < ns
                invariant
                    nt == protocol.tracks@.len(),
                    0 <= t < nt,
                    pt == &protocol.tracks@[t as int],
                    ns == pt.segments@.len(),
                    0 <= k <= ns,
                    segs@.len() == k,
                    forall|j: int|
                        0 <= j < k ==> tag_recognized(
                            (#[trigger] pt.segments@[j]).segment_type@,
                        ),
                    forall|j: int|
                        0 <= j < k ==> rebuilt_segment(#[trigger] pt.segments@[j], segs@[j]),
                decreases ns - k,
            {
                let ps = &pt.segments[k];
                let stag = ps.segment_type.as_str();
                let segment_type = if crate::strutil::str_eq(stag, "video") {
                    SegmentType::Video
                } else if crate::strutil::str_eq(stag, "audio") {
                    SegmentType::Audio
                } else if crate::strutil::str_eq(stag, "image") {
                    SegmentType::Image
                } else if crate::strutil::str_eq(stag, "text") {
                    SegmentType::Text
                } else if crate::strutil::str_eq(stag, "subtitle") {
                    SegmentType::Subtitle
                } else {
                    let mut msg = String::from_str("Unknown segment type: ");
                    msg.append(stag);
                    proof {
                        assert(msg@ =~= "Unknown segment type: "@
                            + protocol.tracks@[t as int].segments@[k as int].segment_type@);
                    }
                    return Err(CluvError::InvalidParams(msg));
                };
                let scale = match ps.scale {
                    Some(sp) => Some(Dimension { width: sp.width, height: sp.height }),
                    None => None,
                };
                let position = match ps.position {
                    Some(pp) => Some(Position { x: pp.x, y: pp.y }),
                    None => None,
                };
                segs.push(
                    Segment {
                        id: ps.id.clone(),
                        segment_type,
                        material_id: ps.material_id.clone(),
                        target_timerange: TimeRange {
                            start: ps.target_timerange.start,
                            duration: ps.target_timerange.duration,
                        },
                        source_timerange: TimeRange {
                            start: ps.source_timerange.start,
                            duration: ps.source_timerange.duration,
                        },
                        scale,
                        position,
                    },
                );
                k = k + 1;
            }

            tracks.push(
                Track {
                    id: pt.id.clone(),
                    track_type,
                    segments: segs,
                    enabled: true,
                    muted: false,
                    volume: 1000,
                    opacity: 1000,
                    blend_mode: None,
                },
            );
            t = t + 1;
        }

        Ok(
            EditSession {
                stage: Stage { width: protocol.stage.width, height: protocol.stage.height },
                materials,
                tracks,
            },
        )
    }
}

impl EditSession {
    /// Project this session onto a protocol document.
    pub fn to_protocol(&self) -> (r: CutProtocol)
        ensures
            protocol_matches(r, *self),
    {
        CutProtocol::from_session(self)
    }

    /// Rebuild a session from a protocol document.
    pub fn from_protocol(protocol: &CutProtocol) -> (r: Result<EditSession, CluvError>)
        ensures
            r is Ok <==> tags_ok(*protocol),
            r matches Ok(s) ==> rebuilt_session(*protocol, s),
    {
        CutProtocol::to_session(protocol)
    }
}

/// Rebuilding a recognized tag recovers the track kind it came from.
pub proof fn lemma_track_tag_inverse(t: TrackType)
    ensures
        tag_recognized(t.tag_view()),
        track_type_of_tag(t.tag_view()) == t,
{
    reveal_strlit("video");
    reveal_strlit("audio");
    reveal_strlit("image");
    reveal_strlit("text");
    reveal_strlit("subtitle");
    assert("video"@ != "audio"@) by {
        assert("video"@[0] != "audio"@[0]);
    }
    assert("video"@ != "image"@) by {
        assert("video"@[0] != "image"@[0]);
    }
    assert("audio"@ != "image"@) by {
        assert("audio"@[0] != "image"@[0]);
    }
    assert("video"@.len() == 5 && "audio"@.len() == 5 && "image"@.len() == 5 && "text"@.len() == 4
        && "subtitle"@.len() == 8);
}

/// Rebuilding a recognized tag recovers the segment kind it came from.
pub proof fn lemma_seg_tag_inverse(t: SegmentType)
    ensures
        tag_recognized(t.tag_view()),
        seg_type_of_tag(t.tag_view()) == t,
{
    reveal_strlit("video");
    reveal_strlit("audio");
    reveal_strlit("image");
    reveal_strlit("text");
    reveal_strlit("subtitle");
    assert("video"@ != "audio"@) by {
        assert("video"@[0] != "audio"@[0]);
    }
    assert("video"@ != "image"@) by {
        assert("video"@[0] != "image"@[0]);
    }
    assert("audio"@ != "image"@) by {
        assert("audio"@[0] != "image"@[0]);
    }
    assert("video"@.len() == 5 && "audio"@.len() == 5 && "image"@.len() == 5 && "text"@.len() == 4
        && "subtitle"@.len() == 8);
}

/// A session whose materials are grouped by kind — videos, then audios,
/// then images — in document order.
pub open spec fn materials_grouped(s: EditSession) -> bool {
    s.materials@ == videos_of(s.materials@).map_values(|v: VideoMaterial| Material::Video(v))
        + audios_of(s.materials@).map_values(|a: AudioMaterial| Material::Audio(a)) + images_of(
        s.materials@,
    ).map_values(|i: ImageMaterial| Material::Image(i))
}

/// A session whose tracks all carry the default playback attributes, which
/// the protocol document does not encode.
pub open spec fn tracks_default_attrs(s: EditSession) -> bool {
    forall|i: int|
        0 <= i < s.tracks@.len() ==> {
            let t = #[trigger] s.tracks@[i];
            t.enabled && !t.muted && t.volume == 1000 && t.opacity == 1000 && t.blend_mode is None
        }
}

/// Protocol round trip: projecting a session onto a protocol document and
/// rebuilding it recovers the session field for field, with segment order
/// within each track preserved exactly.
///
/// The document groups materials by kind and does not carry per-track
/// playback attributes, so the session is required to be grouped and to
/// carry default attributes; on such sessions the round trip is exact.
pub proof fn lemma_protocol_round_trip(s: EditSession, p: CutProtocol, s2: EditSession)
    requires
        protocol_matches(p, s),
        rebuilt_session(p, s2),
        materials_grouped(s),
        tracks_default_attrs(s),
    ensures
        s2.stage == s.stage,
        s2.materials@ == s.materials@,
        s2.tracks@.len() == s.tracks@.len(),
        forall|i: int|
            0 <= i < s.tracks@.len() ==> {
                let t = s.tracks@[i];
                let t2 = #[trigger] s2.tracks@[i];
                t2.id == t.id && t2.track_type == t.track_type && t2.enabled == t.enabled
                    && t2.muted == t.muted && t2.volume == t.volume && t2.opacity == t.opacity
                    && t2.blend_mode == t.blend_mode && t2.segments@ == t.segments@
            },
{
    assert(s2.materials@ == s.materials@) by {
        let vids = videos_of(s.materials@);
        let auds = audios_of(s.materials@);
        let imgs = images_of(s.materials@);
        assert(p.materials.videos@.map_values(
            |v: VideoMaterialProto| material_of_video_proto(v),
        ) =~= vids.map_values(|v: VideoMaterial| Material::Video(v)));
        assert(p.materials.audios@.map_values(
            |a: AudioMaterialProto| material_of_audio_proto(a),
        ) =~= auds.map_values(|a: AudioMaterial| Material::Audio(a)));
        assert(p.materials.images@.map_values(
            |i: ImageMaterialProto| material_of_image_proto(i),
        ) =~= imgs.map_values(|i: ImageMaterial| Material::Image(i)));
    }
    assert forall|i: int| 0 <= i < s.tracks@.len() implies {
        let t = s.tracks@[i];
        let t2 = #[trigger] s2.tracks@[i];
        t2.id == t.id && t2.track_type == t.track_type && t2.enabled == t.enabled && t2.muted
            == t.muted && t2.volume == t.volume && t2.opacity == t.opacity && t2.blend_mode
            == t.blend_mode && t2.segments@ == t.segments@
    } by {
        let t = s.tracks@[i];
        let t2 = s2.tracks@[i];
        let pt = p.tracks@[i];
        lemma_track_tag_inverse(t.track_type);
        assert(t2.segments@ =~= t.segments@) by {
            assert forall|k: int| 0 <= k < t.segments@.len() implies t2.segments@[k]
                == t.segments@[k] by {
                let sg = t.segments@[k];
                let sg2 = t2.segments@[k];
                assert(seg_matches(pt.segments@[k], sg));
                assert(rebuilt_segment(pt.segments@[k], sg2));
                lemma_seg_tag_inverse(sg.segment_type);
                assert(sg2.target_timerange == sg.target_timerange);
                assert(sg2.source_timerange == sg.source_timerange);
                assert(sg2.scale == sg.scale);
                assert(sg2.position == sg.position);
            }
        }
    }
}

} // verus!

verus! {

/// The identifier views of video entries, in order.
pub open spec fn video_id_views(vs: Seq<VideoMaterialProto>) -> Seq<Seq<char>> {
    vs.map_values(|v: VideoMaterialProto| v.id@)
}

/// The identifier views of audio entries, in order.
pub open spec fn audio_id_views(aus: Seq<AudioMaterialProto>) -> Seq<Seq<char>> {
    aus.map_values(|a: AudioMaterialProto| a.id@)
}

/// The identifier views of image entries, in order.
pub open spec fn image_id_views(ims: Seq<ImageMaterialProto>) -> Seq<Seq<char>> {
    ims.map_values(|i: ImageMaterialProto| i.id@)
}

/// All material identifiers of a document, in checking order: videos,
/// audios, images.
pub open spec fn material_id_views(p: CutProtocol) -> Seq<Seq<char>> {
    video_id_views(p.materials.videos@) + audio_id_views(p.materials.audios@) + image_id_views(
        p.materials.images@,
    )
}

/// The identifier views of protocol tracks, in order.
pub open spec fn track_id_views(ts: Seq<ProtocolTrack>) -> Seq<Seq<char>> {
    ts.map_values(|t: ProtocolTrack| t.id@)
}

/// The identifier views of protocol segments, in order.
pub open spec fn seg_id_views(ss: Seq<ProtocolSegment>) -> Seq<Seq<char>> {
    ss.map_values(|s: ProtocolSegment| s.id@)
}

/// No two entries of the sequence are equal.
pub open spec fn distinct_views(s: Seq<Seq<char>>) -> bool {
    forall|i: int, j: int| 0 <= i < j < s.len() ==> #[trigger] s[i] != #[trigger] s[j]
}

/// Whether the sequence holds the given view.
pub open spec fn contains_view(s: Seq<Seq<char>>, x: Seq<char>) -> bool {
    exists|i: int| 0 <= i < s.len() && #[trigger] s[i] == x
}

/// A structurally valid document: positive stage, nonempty and unique
/// material and track identifiers, unique segment identifiers within each
/// track, resolvable references, positive durations, and positive scales.
pub open spec fn protocol_valid(p: CutProtocol) -> bool {
    &&& p.stage.width > 0 && p.stage.height > 0
    &&& forall|i: int|
        0 <= i < p.materials.videos@.len() ==> (#[trigger] p.materials.videos@[i]).id@.len() > 0
    &&& forall|i: int|
        0 <= i < p.materials.audios@.len() ==> (#[trigger] p.materials.audios@[i]).id@.len() > 0
    &&& forall|i: int|
        0 <= i < p.materials.images@.len() ==> (#[trigger] p.materials.images@[i]).id@.len() > 0
    &&& distinct_views(material_id_views(p))
    &&& forall|t: int| 0 <= t < p.tracks@.len() ==> (#[trigger] p.tracks@[t]).id@.len() > 0
    &&& distinct_views(track_id_views(p.tracks@))
    &&& forall|t: int, k: int|
        0 <= t < p.tracks@.len() && 0 <= k < (#[trigger] p.tracks@[t]).segments@.len() ==> (
        #[trigger] p.tracks@[t].segments@[k]).id@.len() > 0
    &&& forall|t: int|
        0 <= t < p.tracks@.len() ==> distinct_views(
            seg_id_views((#[trigger] p.tracks@[t]).segments@),
        )
    &&& forall|t: int, k: int|
        0 <= t < p.tracks@.len() && 0 <= k < (#[trigger] p.tracks@[t]).segments@.len()
            ==> contains_view(
            material_id_views(p),
            (#[trigger] p.tracks@[t].segments@[k]).material_id@,
        )
    &&& forall|t: int, k: int|
        0 <= t < p.tracks@.len() && 0 <= k < (#[trigger] p.tracks@[t]).segments@.len() ==> (
        #[trigger] p.tracks@[t].segments@[k]).target_timerange.duration > 0
            && p.tracks@[t].segments@[k].source_timerange.duration > 0
    &&& forall|t: int, k: int|
        0 <= t < p.tracks@.len() && 0 <= k < (#[trigger] p.tracks@[t]).segments@.len() ==> ((
        #[trigger] p.tracks@[t].segments@[k]).scale matches Some(sc) ==> sc.width > 0 && sc.height
            > 0)
}

/// Whether the accumulated identifier list holds the given identifier.
pub(crate) fn contains_id(ids: &Vec<String>, id: &str) -> (r: bool)
    ensures
        r == contains_view(string_views(ids@), id@),
{
    let n = ids.len();
    let mut i: usize = 0;
    while i < n
        invariant
            n == ids@.len(),
            0 <= i <= n,
            forall|j: int| 0 <= j < i ==> string_views(ids@)[j] != id@,
        decreases n - i,
    {
        if crate::strutil::str_eq(ids[i].as_str(), id) {
            assert(string_views(ids@)[i as int] == id@);
            return true;
        }
        i = i + 1;
    }
    false
}

impl CutProtocol {
    /// Check the document: stage, material identifiers (nonempty, unique),
    /// track identifiers, and each track's segments (identifiers,
    /// references, durations, scales), in a fixed order.
    #[verifier::rlimit(60)]
    pub fn validate(&self) -> (r: Result<(), CluvError>)
        ensures
            r is Ok <==> protocol_valid(*self),
            r matches Err(e) ==> e matches CluvError::InvalidParams(m),
    {
        if self.stage.width <= 0 || self.stage.height <= 0 {
            return Err(CluvError::invalid_params("Stage dimensions must be positive"));
        }
        let mut ids: Vec<String> = Vec::new();
        let nv = self.materials.videos.len();
        let mut i: usize = 0;
        while i < nv
            invariant
                nv == self.materials.videos@.len(),
                0 <= i <= nv,
                string_views(ids@) == video_id_views(self.materials.videos@.subrange(0, i as int)),
                forall|j: int|
                    0 <= j < i ==> (#[trigger] self.materials.videos@[j]).id@.len() > 0,
                distinct_views(string_views(ids@)),
            decreases nv - i,
        {
            let v = &self.materials.videos[i];
            if v.id.as_str().is_empty() {
                return Err(CluvError::invalid_params("Video material ID cannot be empty"));
            }
            if contains_id(&ids, v.id.as_str()) {
                proof {
                    let a = choose|a: int|
                        0 <= a < string_views(ids@).len() && string_views(ids@)[a] == v.id@;
                    let all = material_id_views(*self);
                    assert(string_views(ids@)[a] == video_id_views(
                        self.materials.videos@.subrange(0, i as int),
                    )[a]);
                    assert(all[a] == self.materials.videos@[a].id@);
                    assert(all[i as int] == self.materials.videos@[i as int].id@);
                    assert(all[a] == all[i as int]);
                    assert(!distinct_views(all));
                }
                let mut msg = String::from_str("Duplicate material ID: ");
                msg.append(v.id.as_str());
                return Err(CluvError::InvalidParams(msg));
            }
            let ghost pre = ids@;
            ids.push(v.id.clone());
            proof {
                let lhs = string_views(ids@);
                let rhs = video_id_views(self.materials.videos@.subrange(0, i + 1));
                assert forall|j: int| 0 <= j < lhs.len() implies lhs[j] == rhs[j] by {
                    assert(rhs[j] == self.materials.videos@.subrange(0, i + 1)[j].id@);
                    if j < i {
                        assert(ids@[j] == pre[j]);
                        assert(string_views(pre)[j] == video_id_views(
                            self.materials.videos@.subrange(0, i as int),
                        )[j]);
                    }
                }
                assert(lhs =~= rhs);
                assert forall|a: int, b: int| 0 <= a < b < lhs.len() implies lhs[a]
                    != lhs[b] by {
                    if b == lhs.len() - 1 {
                        assert(lhs[a] == string_views(pre)[a]);
                        assert(lhs[b] == v.id@);
                    } else {
                        assert(lhs[a] == string_views(pre)[a]);
                        assert(lhs[b] == string_views(pre)[b]);
                    }
                }
                assert(distinct_views(lhs));
            }
            i = i + 1;
        }
        assert(self.materials.videos@.subrange(0, nv as int) =~= self.materials.videos@);

        let na = self.materials.audios.len();
        let mut i: usize = 0;
        while i < na
            invariant
                na == self.materials.audios@.len(),
                0 <= i <= na,
                forall|j: int|
                    0 <= j < self.materials.videos@.len() ==> (
                    #[trigger] self.materials.videos@[j]).id@.len() > 0,
                string_views(ids@) == video_id_views(self.materials.videos@) + audio_id_views(
                    self.materials.audios@.subrange(0, i as int),
                ),
                forall|j: int|
                    0 <= j < i ==> (#[trigger] self.materials.audios@[j]).id@.len() > 0,
                distinct_views(string_views(ids@)),
            decreases na - i,
        {
            let a = &self.materials.audios[i];
            if a.id.as_str().is_empty() {
                return Err(CluvError::invalid_params("Audio material ID cannot be empty"));
            }
            if contains_id(&ids, a.id.as_str()) {
                proof {
                    let w = choose|w: int|
                        0 <= w < string_views(ids@).len() && string_views(ids@)[w] == a.id@;
                    let all = material_id_views(*self);
                    let nvv = self.materials.videos@.len() as int;
                    assert(string_views(ids@)[w] == (video_id_views(self.materials.videos@)
                        + audio_id_views(self.materials.audios@.subrange(0, i as int)))[w]);
                    assert(all[w] == string_views(ids@)[w]);
                    assert(all[nvv + i] == self.materials.audios@[i as int].id@);
                    assert(w < nvv + i);
                    assert(all[w] == all[nvv + i]);
                    assert(!distinct_views(all));
                }
                let mut msg = String::from_str("Duplicate material ID: ");
                msg.append(a.id.as_str());
                return Err(CluvError::InvalidParams(msg));
            }
            let ghost pre = ids@;
            ids.push(a.id.clone());
            proof {
                let lhs = string_views(ids@);
                let rhs = video_id_views(self.materials.videos@) + audio_id_views(
                    self.materials.audios@.subrange(0, i + 1),
                );
                assert forall|j: int| 0 <= j < lhs.len() implies lhs[j] == rhs[j] by {
                    if j < pre.len() {
                        assert(ids@[j] == pre[j]);
                        assert(string_views(pre)[j] == (video_id_views(self.materials.videos@)
                            + audio_id_views(self.materials.audios@.subrange(0, i as int)))[j]);
                    }
                }
                assert(lhs =~= rhs);
                assert forall|aa: int, bb: int| 0 <= aa < bb < lhs.len() implies lhs[aa]
                    != lhs[bb] by {
                    if bb == lhs.len() - 1 {
                        assert(lhs[aa] == string_views(pre)[aa]);
                        assert(lhs[bb] == a.id@);
                    } else {
                        assert(lhs[aa] == string_views(pre)[aa]);
                        assert(lhs[bb] == string_views(pre)[bb]);
                    }
                }
                assert(distinct_views(lhs));
            }
            i = i + 1;
        }
        assert(self.materials.audios@.subrange(0, na as int) =~= self.materials.audios@);

        let ni = self.materials.images.len();
        let mut i: usize = 0;
        while i < ni
            invariant
                ni == self.materials.images@.len(),
                0 <= i <= ni,
                forall|j: int|
                    0 <= j < self.materials.videos@.len() ==> (
                    #[trigger] self.materials.videos@[j]).id@.len() > 0,
                forall|j: int|
                    0 <= j < self.materials.audios@.len() ==> (
                    #[trigger] self.materials.audios@[j]).id@.len() > 0,
                string_views(ids@) == video_id_views(self.materials.videos@) + audio_id_views(
                    self.materials.audios@,
                ) + image_id_views(self.materials.images@.subrange(0, i as int)),
                forall|j: int|
                    0 <= j < i ==> (#[trigger] self.materials.images@[j]).id@.len() > 0,
                distinct_views(string_views(ids@)),
            decreases ni - i,
        {
            let im = &self.materials.images[i];
            if im.id.as_str().is_empty() {
                return Err(CluvError::invalid_params("Image material ID cannot be empty"));
            }
            if contains_id(&ids, im.id.as_str()) {
                proof {
                    let w = choose|w: int|
                        0 <= w < string_views(ids@).len() && string_views(ids@)[w] == im.id@;
                    let all = material_id_views(*self);
                    let base = self.materials.videos@.len() as int
                        + self.materials.audios@.len() as int;
                    assert(string_views(ids@)[w] == (video_id_views(self.materials.videos@)
                        + audio_id_views(self.materials.audios@) + image_id_views(
                        self.materials.images@.subrange(0, i as int),
                    ))[w]);
                    assert(all[w] == string_views(ids@)[w]);
                    assert(all[base + i] == self.materials.images@[i as int].id@);
                    assert(w < base + i);
                    assert(all[w] == all[base + i]);
                    assert(!distinct_views(all));
                }
                let mut msg = String::from_str("Duplicate material ID: ");
                msg.append(im.id.as_str());
                return Err(CluvError::InvalidParams(msg));
            }
            let ghost pre = ids@;
            ids.push(im.id.clone());
            proof {
                let lhs = string_views(ids@);
                let rhs = video_id_views(self.materials.videos@) + audio_id_views(
                    self.materials.audios@,
                ) + image_id_views(self.materials.images@.subrange(0, i + 1));
                assert forall|j: int| 0 <= j < lhs.len() implies lhs[j] == rhs[j] by {
                    if j < pre.len() {
                        assert(ids@[j] == pre[j]);
                        assert(string_views(pre)[j] == (video_id_views(self.materials.videos@)
                            + audio_id_views(self.materials.audios@) + image_id_views(
                            self.materials.images@.subrange(0, i as int),
                        ))[j]);
                    }
                }
                assert(lhs =~= rhs);
                assert forall|a: int, b: int| 0 <= a < b < lhs.len() implies lhs[a]
                    != lhs[b] by {
                    if b == lhs.len() - 1 {
                        assert(lhs[a] == string_views(pre)[a]);
                        assert(lhs[b] == im.id@);
                    } else {
                        assert(lhs[a] == string_views(pre)[a]);
                        assert(lhs[b] == string_views(pre)[b]);
                    }
                }
                assert(distinct_views(lhs));
            }
            i = i + 1;
        }
        assert(self.materials.images@.subrange(0, ni as int) =~= self.materials.images@);
        assert(string_views(ids@) == material_id_views(*self));

        let mut track_ids: Vec<String> = Vec::new();
        let nt = self.tracks.len();
        let mut t: usize = 0;
        while t < nt
            invariant
                nt == self.tracks@.len(),
                0 <= t <= nt,
                string_views(track_ids@) == track_id_views(self.tracks@.subrange(0, t as int)),
                forall|j: int| 0 <= j < t ==> (#[trigger] self.tracks@[j]).id@.len() > 0,
                distinct_views(string_views(track_ids@)),
            decreases nt - t,
        {
            let track = &self.tracks[t];
            if track.id.as_str().is_empty() {
                return Err(CluvError::invalid_params("Track ID cannot be empty"));
            }
            if contains_id(&track_ids, track.id.as_str()) {
                proof {
                    let w = choose|w: int|
                        0 <= w < string_views(track_ids@).len() && string_views(track_ids@)[w]
                            == track.id@;
                    let all = track_id_views(self.tracks@);
                    assert(string_views(track_ids@)[w] == track_id_views(
                        self.tracks@.subrange(0, t as int),
                    )[w]);
                    assert(all[w] == self.tracks@[w].id@);
                    assert(all[t as int] == self.tracks@[t as int].id@);
                    assert(all[w] == all[t as int]);
                    assert(!distinct_views(all));
                }
                let mut msg = String::from_str("Duplicate track ID: ");
                msg.append(track.id.as_str());
                return Err(CluvError::InvalidParams(msg));
            }
            let ghost pre = track_ids@;
            track_ids.push(track.id.clone());
            proof {
                let lhs = string_views(track_ids@);
                let rhs = track_id_views(self.tracks@.subrange(0, t + 1));
                assert forall|j: int| 0 <= j < lhs.len() implies lhs[j] == rhs[j] by {
                    if j < pre.len() {
                        assert(track_ids@[j] == pre[j]);
                        assert(string_views(pre)[j] == track_id_views(
                            self.tracks@.subrange(0, t as int),
                        )[j]);
                    }
                }
                assert(lhs =~= rhs);
                assert forall|a: int, b: int| 0 <= a < b < lhs.len() implies lhs[a]
                    != lhs[b] by {
                    if b == lhs.len() - 1 {
                        assert(lhs[a] == string_views(pre)[a]);
                        assert(lhs[b] == track.id@);
                    } else {
                        assert(lhs[a] == string_views(pre)[a]);
                        assert(lhs[b] == string_views(pre)[b]);
                    }
                }
                assert(distinct_views(lhs));
            }
            t = t + 1;
        }
        assert(self.tracks@.subrange(0, nt as int) =~= self.tracks@);
        assert(distinct_views(track_id_views(self.tracks@)));

        let mut t: usize = 0;
        while t < nt
            invariant
                nt == self.tracks@.len(),
                0 <= t <= nt,
                string_views(ids@) == material_id_views(*self),
                forall|ti: int, k: int|
                    0 <= ti < t && 0 <= k < (#[trigger] self.tracks@[ti]).segments@.len() ==> {
                        let sg = #[trigger] self.tracks@[ti].segments@[k];
                        sg.id@.len() > 0 && contains_view(material_id_views(*self), sg.material_id@)
                            && sg.target_timerange.duration > 0 && sg.source_timerange.duration > 0
                            && (sg.scale matches Some(sc) ==> sc.width > 0 && sc.height > 0)
                    },
                forall|ti: int|
                    0 <= ti < t ==> distinct_views(
                        seg_id_views((#[trigger] self.tracks@[ti]).segments@),
                    ),
            decreases nt - t,
        {
            let track = &self.tracks[t];
            let ns = track.segments.len();
            let mut seg_ids: Vec<String> = Vec::new();
            let mut k: usize = 0;
            while k < ns
                invariant
                    nt == self.tracks@.len(),
                    0 <= t < nt,
                    track == &self.tracks@[t as int],
                    ns == track.segments@.len(),
                    0 <= k <= ns,
                    string_views(ids@) == material_id_views(*self),
                    string_views(seg_ids@) == seg_id_views(track.segments@.subrange(0, k as int)),
                    distinct_views(string_views(seg_ids@)),
                    forall|j: int|
                        0 <= j < k ==> {
                            let sg = #[trigger] track.segments@[j];
                            sg.id@.len() > 0 && contains_view(
                                material_id_views(*self),
                                sg.material_id@,
                            ) && sg.target_timerange.duration > 0
                                && sg.source_timerange.duration > 0 && (
                            sg.scale matches Some(sc) ==> sc.width > 0 && sc.height > 0)
                        },
                decreases ns - k,
            {
                let sg = &track.segments[k];
                if sg.id.as_str().is_empty() {
                    return Err(CluvError::invalid_params("Segment ID cannot be empty"));
                }
                if contains_id(&seg_ids, sg.id.as_str()) {
                    proof {
                        let w = choose|w: int|
                            0 <= w < string_views(seg_ids@).len() && string_views(seg_ids@)[w]
                                == sg.id@;
                        let all = seg_id_views(track.segments@);
                        assert(string_views(seg_ids@)[w] == seg_id_views(
                            track.segments@.subrange(0, k as int),
                        )[w]);
                        assert(all[w] == track.segments@[w].id@);
                        assert(all[k as int] == track.segments@[k as int].id@);
                        assert(all[w] == all[k as int]);
                        assert(!distinct_views(all));
                        assert(!protocol_valid(*self)) by {
                            if protocol_valid(*self) {
                                assert(distinct_views(
                                    seg_id_views(self.tracks@[t as int].segments@),
                                ));
                            }
                        }
                    }
                    let mut msg = String::from_str("Duplicate segment ID: ");
                    msg.append(sg.id.as_str());
                    return Err(CluvError::InvalidParams(msg));
                }
                if !contains_id(&ids, sg.material_id.as_str()) {
                    let mut msg = String::from_str("Referenced material '");
                    msg.append(sg.material_id.as_str());
                    msg.append("' not found");
                    return Err(CluvError::InvalidParams(msg));
                }
                if sg.target_timerange.duration == 0 {
                    return Err(CluvError::invalid_params("Target duration must be positive"));
                }
                if sg.source_timerange.duration == 0 {
                    return Err(CluvError::invalid_params("Source duration must be positive"));
                }
                if let Some(sc) = sg.scale {
                    if sc.width <= 0 || sc.height <= 0 {
                        return Err(
                            CluvError::invalid_params("Scale dimensions must be positive"),
                        );
                    }
                }
                let ghost pre = seg_ids@;
                seg_ids.push(sg.id.clone());
                proof {
                    let lhs = string_views(seg_ids@);
                    let rhs = seg_id_views(track.segments@.subrange(0, k + 1));
                    assert(k < ns);
                    assert(ns == track.segments@.len());
                    assert(seg_ids@.len() == pre.len() + 1);
                    assert(string_views(pre) == seg_id_views(
                        track.segments@.subrange(0, k as int),
                    ));
                    assert(pre.len() == k);
                    assert(lhs.len() == k + 1);
                    assert(rhs.len() == k + 1);
                    assert forall|j: int| 0 <= j < lhs.len() implies lhs[j] == rhs[j] by {
                        assert(rhs[j] == track.segments@.subrange(0, k + 1)[j].id@);
                        if j < pre.len() {
                            assert(seg_ids@[j] == pre[j]);
                            assert(string_views(pre)[j] == seg_id_views(
                                track.segments@.subrange(0, k as int),
                            )[j]);
                        }
                    }
                    assert(lhs =~= rhs);
                    assert forall|a: int, b: int| 0 <= a < b < lhs.len() implies lhs[a]
                        != lhs[b] by {
                        if b == lhs.len() - 1 {
                            assert(lhs[a] == string_views(pre)[a]);
                            assert(lhs[b] == sg.id@);
                        } else {
                            assert(lhs[a] == string_views(pre)[a]);
                            assert(lhs[b] == string_views(pre)[b]);
                        }
                    }
                    assert(distinct_views(lhs));
                }
                k = k + 1;
            }
            proof {
                assert(track.segments@.subrange(0, ns as int) =~= track.segments@);
            }
            t = t + 1;
        }
        Ok(())
    }
}

} // verus!
