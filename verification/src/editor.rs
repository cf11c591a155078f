//! The editor: session management, enrichment, and the graph compiler.
//!
//! The compiler is the centerpiece: it walks a validated session and emits
//! a deterministic engine command — input bindings deduplicated by
//! material, a background canvas, per-segment video chains composited in
//! reverse track order (so the first stored track lands visually on top),
//! per-segment audio chains, one mixing policy node, and the final output
//! mapping. The whole node list is pinned down, node by node, by
//! `expected_filters`.

use vstd::prelude::*;

use crate::codec::{AudioCodec, VideoCodec};
use crate::error::CluvError;
use crate::ffmpeg::{filter_label_view, FFmpeg};
use crate::filter::{scale_side_view, Filter};
use crate::input::Input;
use crate::kvlist::KvList;
use crate::ffprobe::MediaInfo;
use crate::material::{AudioMaterial, Dimension, ImageMaterial, Material, VideoMaterial};
use crate::options::{FFmpegOptions, FFprobeOptions};
use crate::output::Output;
use crate::protocol::{CutProtocol, ExportType};
use crate::segment::Segment;
use crate::session::{max_track_duration, resolves, EditSession};
use crate::stage::Stage;
use crate::stream::{Stream, StreamInput};
use crate::strutil::{dec_str, int_str, milli_dec_view, string_views};
use crate::strutil;
use crate::track::{Track, TrackType};

verus! {

/// Export selection: the destination, the kind, and optional codec and
/// quality overrides.
#[derive(Debug, Clone, PartialEq, Eq)]
pub struct ExportOptions {
    /// Destination path.
    pub output_file: String,
    /// Export kind.
    pub export_type: ExportType,
    /// Video codec name, when overridden.
    pub video_codec: Option<String>,
    /// Audio codec name, when overridden.
    pub audio_codec: Option<String>,
    /// Constant rate factor, when set.
    pub quality: Option<i32>,
    /// Video bitrate in kbps, when set.
    pub video_bitrate: Option<i32>,
    /// Audio bitrate in kbps, when set.
    pub audio_bitrate: Option<i32>,
    /// Custom engine options, appended verbatim to the output.
    pub custom_options: KvList,
}

impl ExportOptions {
    /// Create options for a destination and kind.
    pub fn new(output_file: &str, export_type: ExportType) -> (r: ExportOptions)
        ensures
            r.output_file@ == output_file@,
            r.export_type == export_type,
            r.video_codec is None && r.audio_codec is None,
            r.quality is None && r.video_bitrate is None && r.audio_bitrate is None,
            r.custom_options.entries@.len() == 0,
    {
        ExportOptions {
            output_file: String::from_str(output_file),
            export_type,
            video_codec: None,
            audio_codec: None,
            quality: None,
            video_bitrate: None,
            audio_bitrate: None,
            custom_options: KvList::new(),
        }
    }

    /// Override the video codec.
    pub fn with_video_codec(self, codec: &str) -> (r: ExportOptions)
        ensures
            r == (ExportOptions { video_codec: r.video_codec, ..self }),
            r.video_codec matches Some(c) && c@ == codec@,
    {
        ExportOptions { video_codec: Some(String::from_str(codec)), ..self }
    }

    /// Override the audio codec.
    pub fn with_audio_codec(self, codec: &str) -> (r: ExportOptions)
        ensures
            r == (ExportOptions { audio_codec: r.audio_codec, ..self }),
            r.audio_codec matches Some(c) && c@ == codec@,
    {
        ExportOptions { audio_codec: Some(String::from_str(codec)), ..self }
    }

    /// Set the constant rate factor.
    pub fn with_quality(self, quality: i32) -> (r: ExportOptions)
        ensures
            r == (ExportOptions { quality: Some(quality), ..self }),
    {
        ExportOptions { quality: Some(quality), ..self }
    }

    /// Set the video bitrate in kbps.
    pub fn with_video_bitrate(self, bitrate: i32) -> (r: ExportOptions)
        ensures
            r == (ExportOptions { video_bitrate: Some(bitrate), ..self }),
    {
        ExportOptions { video_bitrate: Some(bitrate), ..self }
    }

    /// Set the audio bitrate in kbps.
    pub fn with_audio_bitrate(self, bitrate: i32) -> (r: ExportOptions)
        ensures
            r == (ExportOptions { audio_bitrate: Some(bitrate), ..self }),
    {
        ExportOptions { audio_bitrate: Some(bitrate), ..self }
    }

    /// Set a custom engine option.
    pub fn with_custom_option(self, key: &str, value: &str) -> (r: ExportOptions)
        ensures
            r == (ExportOptions { custom_options: r.custom_options, ..self }),
            r.custom_options.entries@.len() >= 1,
            r.custom_options.entries@.last().0@ == key@,
            r.custom_options.entries@.last().1@ == value@,
    {
        let mut custom_options = self.custom_options;
        custom_options.insert(key, value);
        ExportOptions { custom_options, ..self }
    }
}

/// An abstract graph node: the filter name, its parameter texts, and how
/// many inputs it consumes.
pub open spec fn node_abs(f: Filter) -> (Seq<char>, Seq<Seq<char>>, int) {
    (f.name@, string_views(f.params@), f.inputs@.len() as int)
}

/// The abstract form of a filter list.
pub open spec fn graph_abs(fs: Seq<Filter>) -> Seq<(Seq<char>, Seq<Seq<char>>, int)> {
    fs.map_values(|f: Filter| node_abs(f))
}

/// The background canvas node: a solid color sized to the stage, lasting
/// the whole session.
pub open spec fn color_node(stage: Stage, total: int) -> (Seq<char>, Seq<Seq<char>>, int) {
    (
        "color"@,
        seq![
            "c=black"@,
            "s="@ + int_str(stage.width as int) + "x"@ + int_str(stage.height as int),
            "d="@ + milli_dec_view(total as nat),
        ],
        0,
    )
}

/// The playback speed of a segment, in thousandths.
pub open spec fn speed_milli(seg: Segment) -> int {
    seg.source_timerange.duration as int * 1000 / seg.target_timerange.duration as int
}

/// The video chain of one segment: an optional scale, an optional speed
/// change, the timeline placement, and the overlay onto the running
/// canvas, gated to the segment's target window.
pub open spec fn seg_video_nodes(seg: Segment) -> Seq<(Seq<char>, Seq<Seq<char>>, int)> {
    let ts = seg.target_timerange.start as int;
    let te = seg.target_timerange.start as int + seg.target_timerange.duration as int;
    let x = (match seg.position {
        Some(p) => p.x as int,
        None => 0,
    });
    let y = (match seg.position {
        Some(p) => p.y as int,
        None => 0,
    });
    (match seg.scale {
        Some(d) => seq![
            (
                "scale"@,
                seq![scale_side_view(d.width), scale_side_view(d.height)],
                1int,
            ),
        ],
        None => Seq::empty(),
    }) + (if seg.source_timerange.duration != seg.target_timerange.duration {
        seq![
            (
                "setpts"@,
                seq!["1/"@ + milli_dec_view(speed_milli(seg) as nat) + "*PTS"@],
                1int,
            ),
        ]
    } else {
        Seq::empty()
    }) + seq![
        ("setpts"@, seq!["PTS+"@ + milli_dec_view(ts as nat) + "/TB"@], 1int),
        (
            "overlay"@,
            seq![
                int_str(x) + ":"@ + int_str(y),
                "enable='between(t,"@ + milli_dec_view(ts as nat) + ","@ + milli_dec_view(
                    te as nat,
                ) + ")'"@,
            ],
            2int,
        ),
    ]
}

/// The video chains of a track's segments, in stored order.
pub open spec fn track_video_nodes(segs: Seq<Segment>) -> Seq<(Seq<char>, Seq<Seq<char>>, int)>
    decreases segs.len(),
{
    if segs.len() == 0 {
        Seq::empty()
    } else {
        track_video_nodes(segs.drop_last()) + seg_video_nodes(segs.last())
    }
}

/// The video chains of all enabled video tracks, composited in reverse
/// stored order: the last stored video track is drawn first, so the first
/// stored one lands on top.
pub open spec fn tracks_video_nodes(ts: Seq<Track>) -> Seq<(Seq<char>, Seq<Seq<char>>, int)>
    decreases ts.len(),
{
    if ts.len() == 0 {
        Seq::empty()
    } else {
        (if ts.last().track_type == TrackType::Video && ts.last().enabled {
            track_video_nodes(ts.last().segments@)
        } else {
            Seq::empty()
        }) + tracks_video_nodes(ts.drop_last())
    }
}

/// The audio segments of the enabled, unmuted audio tracks, in stored
/// order, each with its track's volume.
pub open spec fn audio_segs(ts: Seq<Track>) -> Seq<(Segment, u32)>
    decreases ts.len(),
{
    if ts.len() == 0 {
        Seq::empty()
    } else {
        audio_segs(ts.drop_last()) + (if ts.last().track_type == TrackType::Audio
            && ts.last().enabled && !ts.last().muted {
            ts.last().segments@.map_values(|s: Segment| (s, ts.last().volume))
        } else {
            Seq::empty()
        })
    }
}

/// The audio chain of one segment: an optional trim with a clock reset, an
/// optional volume change, an optional tempo change, and an optional
/// delay to its timeline position.
pub open spec fn seg_audio_nodes(seg: Segment, volume: u32) -> Seq<
    (Seq<char>, Seq<Seq<char>>, int),
> {
    (if seg.source_timerange.start > 0 || seg.source_timerange.duration
        != seg.target_timerange.duration {
        seq![
            (
                "atrim"@,
                seq![
                    "start="@ + milli_dec_view(seg.source_timerange.start as nat),
                    "duration="@ + milli_dec_view(seg.source_timerange.duration as nat),
                ],
                1int,
            ),
            ("asetpts"@, seq!["PTS-STARTPTS"@], 1int),
        ]
    } else {
        Seq::empty()
    }) + (if volume != 1000 {
        seq![("volume"@, seq![milli_dec_view(volume as nat)], 1int)]
    } else {
        Seq::empty()
    }) + (if seg.source_timerange.duration != seg.target_timerange.duration {
        seq![("atempo"@, seq![milli_dec_view(speed_milli(seg) as nat)], 1int)]
    } else {
        Seq::empty()
    }) + (if seg.target_timerange.start > 0 {
        seq![
            (
                "adelay"@,
                seq![dec_str(seg.target_timerange.start as nat) + "ms"@],
                1int,
            ),
        ]
    } else {
        Seq::empty()
    })
}

/// The audio chains of the collected audio segments, in order.
pub open spec fn audio_chain_nodes(list: Seq<(Segment, u32)>) -> Seq<
    (Seq<char>, Seq<Seq<char>>, int),
>
    decreases list.len(),
{
    if list.len() == 0 {
        Seq::empty()
    } else {
        audio_chain_nodes(list.drop_last()) + seg_audio_nodes(list.last().0, list.last().1)
    }
}

/// The mixing policy: silence when no audio stream exists, pass-through
/// for one, and a single equal-weight mix node for several.
pub open spec fn mix_nodes(n: int, total: int) -> Seq<(Seq<char>, Seq<Seq<char>>, int)> {
    if n == 0 {
        seq![("anullsrc"@, seq!["d="@ + milli_dec_view(total as nat)], 0int)]
    } else if n == 1 {
        Seq::empty()
    } else {
        seq![("amix"@, seq!["inputs="@ + int_str(n)], n)]
    }
}

/// The whole compiled node list of a session: the background canvas, the
/// video chains in reverse track order, the audio chains in track order,
/// and the mixing policy node.
pub open spec fn expected_filters(s: EditSession) -> Seq<(Seq<char>, Seq<Seq<char>>, int)> {
    seq![color_node(s.stage, max_track_duration(s.tracks@))] + tracks_video_nodes(s.tracks@)
        + audio_chain_nodes(audio_segs(s.tracks@)) + mix_nodes(
        audio_segs(s.tracks@).len() as int,
        max_track_duration(s.tracks@),
    )
}

/// The number of video chain nodes a session compiles to.
pub open spec fn video_node_count(s: EditSession) -> int {
    tracks_video_nodes(s.tracks@).len() as int
}

/// The number of audio chain nodes a session compiles to.
pub open spec fn audio_node_count(s: EditSession) -> int {
    audio_chain_nodes(audio_segs(s.tracks@)).len() as int
}

/// The stream specifiers of a reference list, in order.
pub open spec fn input_specifiers(refs: Seq<StreamInput>) -> Seq<Seq<char>> {
    refs.map_values(|x: StreamInput| x.stream_view().specifier_view())
}

/// The specifier of the stream a compiled audio chain hands on: the label
/// of the chain's last node when the chain emits nodes at `base` onward,
/// or the bound input's audio stream when the chain is empty.
pub open spec fn audio_out_spec_at(
    pairs: Seq<(Segment, u32)>,
    base: int,
    bound: Seq<Seq<char>>,
    k: int,
) -> Seq<char> {
    let prior = audio_chain_nodes(pairs.subrange(0, k)).len() as int;
    let c = seg_audio_nodes(pairs[k].0, pairs[k].1).len() as int;
    if c > 0 {
        filter_label_view((base + prior + c - 1) as nat)
    } else {
        (Stream {
            input_index: index_in(bound, pairs[k].0.material_id@) as i32,
            stream_type: crate::stream::StreamType::Audio,
            may_not: false,
            stream_index: None,
            label: None,
        }).specifier_view()
    }
}

/// The specifier text of the final video canvas a session compiles to:
/// the label of the last video chain node, or of the background when no
/// video chain exists.
pub open spec fn canvas_map_view(s: EditSession) -> Seq<char> {
    filter_label_view(video_node_count(s) as nat)
}

/// The specifier text of the final audio stream a session compiles to:
/// the silence node for no audio segments, the single chain's stream for
/// one, and the mix node for several.
pub open spec fn audio_map_view(s: EditSession) -> Seq<char> {
    let n = audio_segs(s.tracks@).len() as int;
    if n == 0 {
        filter_label_view((1 + video_node_count(s)) as nat)
    } else if n == 1 {
        audio_out_spec_at(
            audio_segs(s.tracks@),
            1 + video_node_count(s),
            bound_ids(all_segments(s.tracks@), s.materials@),
            0,
        )
    } else {
        filter_label_view((1 + video_node_count(s) + audio_node_count(s)) as nat)
    }
}

/// The specifiers of all compiled audio chain streams, in collection
/// order.
pub open spec fn audio_out_specs(s: EditSession) -> Seq<Seq<char>> {
    Seq::new(
        audio_segs(s.tracks@).len(),
        |k: int|
            audio_out_spec_at(
                audio_segs(s.tracks@),
                1 + video_node_count(s),
                bound_ids(all_segments(s.tracks@), s.materials@),
                k,
            ),
    )
}

/// All segments of all tracks, in stored order.
pub open spec fn all_segments(ts: Seq<Track>) -> Seq<Segment>
    decreases ts.len(),
{
    if ts.len() == 0 {
        Seq::empty()
    } else {
        all_segments(ts.drop_last()) + ts.last().segments@
    }
}

/// The source of the first material with the given identifier.
pub open spec fn first_material_src(materials: Seq<Material>, id: Seq<char>) -> Seq<char>
    decreases materials.len(),
{
    if materials.len() == 0 {
        Seq::empty()
    } else if materials.first().id_view() == id {
        materials.first().src_view()
    } else {
        first_material_src(materials.drop_first(), id)
    }
}

/// The material identifiers bound after processing the given segments:
/// each resolvable identifier appears once, at its first use.
pub open spec fn bound_ids(segs: Seq<Segment>, materials: Seq<Material>) -> Seq<Seq<char>>
    decreases segs.len(),
{
    if segs.len() == 0 {
        Seq::empty()
    } else {
        let prev = bound_ids(segs.drop_last(), materials);
        let id = segs.last().material_id@;
        if crate::protocol::contains_view(prev, id) || !resolves(materials, id) {
            prev
        } else {
            prev.push(id)
        }
    }
}

/// The input bindings after processing the given segments: one binding
/// per distinct resolvable material, at its first use, trimmed to that
/// first segment's source window.
pub open spec fn bindings(segs: Seq<Segment>, materials: Seq<Material>) -> Seq<
    (Seq<char>, u32, u32),
>
    decreases segs.len(),
{
    if segs.len() == 0 {
        Seq::empty()
    } else {
        let prev = bindings(segs.drop_last(), materials);
        let seg = segs.last();
        let id = seg.material_id@;
        if crate::protocol::contains_view(bound_ids(segs.drop_last(), materials), id)
            || !resolves(materials, id) {
            prev
        } else {
            prev.push(
                (
                    first_material_src(materials, id),
                    seg.source_timerange.start,
                    seg.source_timerange.duration,
                ),
            )
        }
    }
}

/// Identifiers once bound stay bound as more segments are processed.
pub proof fn lemma_bound_ids_monotonic(segs: Seq<Segment>, materials: Seq<Material>, k: int)
    requires
        0 <= k <= segs.len(),
    ensures
        forall|x: Seq<char>|
            crate::protocol::contains_view(
                #[trigger] bound_ids(segs.subrange(0, k), materials),
                x,
            ) ==> crate::protocol::contains_view(bound_ids(segs, materials), x),
    decreases segs.len() - k,
{
    if k == segs.len() {
        assert(segs.subrange(0, k) =~= segs);
    } else {
        lemma_bound_ids_monotonic(segs, materials, k + 1);
        let t = segs.subrange(0, k + 1);
        assert(t.drop_last() =~= segs.subrange(0, k));
        assert forall|x: Seq<char>|
            crate::protocol::contains_view(
                #[trigger] bound_ids(segs.subrange(0, k), materials),
                x,
            ) implies crate::protocol::contains_view(bound_ids(segs, materials), x) by {
            let prev = bound_ids(segs.subrange(0, k), materials);
            let next = bound_ids(t, materials);
            assert(crate::protocol::contains_view(next, x)) by {
                let w = choose|w: int| 0 <= w < prev.len() && prev[w] == x;
                if next == prev {
                    assert(next[w] == x);
                } else {
                    assert(next == prev.push(segs[k].material_id@));
                    assert(next[w] == x);
                }
            }
        }
    }
}

/// Every resolvable reference among the segments is bound afterward.
pub proof fn lemma_all_refs_bound(segs: Seq<Segment>, materials: Seq<Material>, j: int)
    requires
        0 <= j < segs.len(),
        resolves(materials, segs[j].material_id@),
    ensures
        crate::protocol::contains_view(bound_ids(segs, materials), segs[j].material_id@),
    decreases segs.len(),
{
    if j == segs.len() - 1 {
        let prev = bound_ids(segs.drop_last(), materials);
        let id = segs.last().material_id@;
        if crate::protocol::contains_view(prev, id) {
            lemma_bound_ids_monotonic(segs, materials, segs.len() - 1);
            assert(segs.subrange(0, segs.len() - 1) =~= segs.drop_last());
        } else {
            assert(bound_ids(segs, materials) == prev.push(id));
            assert(bound_ids(segs, materials).last() == id);
        }
    } else {
        lemma_all_refs_bound(segs.drop_last(), materials, j);
        assert(segs.drop_last()[j] == segs[j]);
        lemma_bound_ids_monotonic(segs, materials, segs.len() - 1);
        assert(segs.subrange(0, segs.len() - 1) =~= segs.drop_last());
    }
}

/// Each segment of each track appears in the flattened segment list.
pub proof fn lemma_all_segments_index(ts: Seq<Track>, ti: int, k: int)
    requires
        0 <= ti < ts.len(),
        0 <= k < ts[ti].segments@.len(),
    ensures
        exists|j: int|
            0 <= j < all_segments(ts).len() && #[trigger] all_segments(ts)[j] == ts[ti].segments@[k],
    decreases ts.len(),
{
    if ti == ts.len() - 1 {
        let base = all_segments(ts.drop_last()).len() as int;
        assert(all_segments(ts)[base + k] == ts[ti].segments@[k]);
    } else {
        lemma_all_segments_index(ts.drop_last(), ti, k);
        let j = choose|j: int|
            0 <= j < all_segments(ts.drop_last()).len() && #[trigger] all_segments(
                ts.drop_last(),
            )[j] == ts.drop_last()[ti].segments@[k];
        assert(all_segments(ts)[j] == ts[ti].segments@[k]);
    }
}

/// The editor: engine and probe options around an edit session.
#[derive(Debug, Clone, PartialEq, Eq)]
pub struct Editor {
    /// Engine invocation options.
    pub ffmpeg_options: FFmpegOptions,
    /// Probe invocation options.
    pub ffprobe_options: FFprobeOptions,
    /// The session being edited.
    pub session: EditSession,
}

impl Editor {
    /// Create an editor with default options and an empty session on a
    /// 1920x1080 stage.
    pub fn new() -> (r: Editor)
        ensures
            r.session.stage == (Stage { width: 1920, height: 1080 }),
            r.session.materials@.len() == 0,
            r.session.tracks@.len() == 0,
    {
        Editor {
            ffmpeg_options: FFmpegOptions::new(),
            ffprobe_options: FFprobeOptions::new(),
            session: EditSession::default(),
        }
    }

    /// Replace the stage.
    pub fn set_stage(self, stage: Stage) -> (r: Editor)
        ensures
            r.ffmpeg_options == self.ffmpeg_options,
            r.ffprobe_options == self.ffprobe_options,
            r.session == (EditSession { stage, ..self.session }),
    {
        let mut session = self.session;
        session.stage = stage;
        Editor { session, ..self }
    }

    /// Replace the engine options.
    pub fn set_ffmpeg_options(self, options: FFmpegOptions) -> (r: Editor)
        ensures
            r == (Editor { ffmpeg_options: options, ..self }),
    {
        Editor { ffmpeg_options: options, ..self }
    }

    /// Replace the probe options.
    pub fn set_ffprobe_options(self, options: FFprobeOptions) -> (r: Editor)
        ensures
            r == (Editor { ffprobe_options: options, ..self }),
    {
        Editor { ffprobe_options: options, ..self }
    }

    /// Replace the session with one rebuilt from a protocol document.
    pub fn load_from_protocol(&mut self, protocol: &CutProtocol) -> (r: Result<(), CluvError>)
        ensures
            r is Ok <==> crate::protocol::tags_ok(*protocol),
            r is Ok ==> crate::protocol::rebuilt_session(*protocol, final(self).session),
            r is Ok ==> final(self).ffmpeg_options == old(self).ffmpeg_options,
            r is Ok ==> final(self).ffprobe_options == old(self).ffprobe_options,
            r is Err ==> *final(self) == *old(self),
    {
        match CutProtocol::to_session(protocol) {
            Ok(session) => {
                self.session = session;
                Ok(())
            },
            Err(e) => Err(e),
        }
    }

    /// Project the session onto a protocol document.
    pub fn save_to_protocol(&self) -> (r: CutProtocol)
        ensures
            crate::protocol::protocol_matches(r, self.session),
    {
        self.session.to_protocol()
    }

    /// The session.
    pub fn session(&self) -> (r: &EditSession)
        ensures
            *r == self.session,
    {
        &self.session
    }

    /// The session, for mutation.
    pub fn session_mut(&mut self) -> (r: &mut EditSession)
        ensures
            *r == old(self).session,
            *final(self) == (Editor { session: *final(r), ..*old(self) }),
    {
        &mut self.session
    }

    /// Add a material; its identifier is returned.
    pub fn add_material(&mut self, material: Material) -> (r: String)
        ensures
            final(self).ffmpeg_options == old(self).ffmpeg_options,
            final(self).ffprobe_options == old(self).ffprobe_options,
            final(self).session.stage == old(self).session.stage,
            final(self).session.tracks == old(self).session.tracks,
            final(self).session.materials@ == old(self).session.materials@.push(material),
            r@ == material.id_view(),
    {
        let id = String::from_str(material.id());
        self.session.add_material(material);
        id
    }

    /// Add a track; its identifier is returned.
    pub fn add_track(&mut self, track: Track) -> (r: String)
        ensures
            final(self).ffmpeg_options == old(self).ffmpeg_options,
            final(self).ffprobe_options == old(self).ffprobe_options,
            final(self).session.stage == old(self).session.stage,
            final(self).session.materials == old(self).session.materials,
            final(self).session.tracks@ == old(self).session.tracks@.push(track),
            r@ == track.id@,
    {
        let id = track.id.clone();
        self.session.add_track(track);
        id
    }

    /// Add an empty video track with a fresh identifier.
    pub fn add_video_track(&mut self)
        ensures
            final(self).ffmpeg_options == old(self).ffmpeg_options,
            final(self).ffprobe_options == old(self).ffprobe_options,
            final(self).session.stage == old(self).session.stage,
            final(self).session.materials == old(self).session.materials,
            final(self).session.tracks@.len() == old(self).session.tracks@.len() + 1,
            final(self).session.tracks@.drop_last() == old(self).session.tracks@,
            final(self).session.tracks@.last().track_type == TrackType::Video,
            final(self).session.tracks@.last().enabled,
    {
        let track = Track::video();
        self.session.add_track(track);
        assert(final(self).session.tracks@.drop_last() =~= old(self).session.tracks@);
    }

    /// Add an empty audio track with a fresh identifier.
    pub fn add_audio_track(&mut self)
        ensures
            final(self).ffmpeg_options == old(self).ffmpeg_options,
            final(self).ffprobe_options == old(self).ffprobe_options,
            final(self).session.stage == old(self).session.stage,
            final(self).session.materials == old(self).session.materials,
            final(self).session.tracks@.len() == old(self).session.tracks@.len() + 1,
            final(self).session.tracks@.drop_last() == old(self).session.tracks@,
            final(self).session.tracks@.last().track_type == TrackType::Audio,
            final(self).session.tracks@.last().enabled,
            !final(self).session.tracks@.last().muted,
    {
        let track = Track::audio();
        self.session.add_track(track);
        assert(final(self).session.tracks@.drop_last() =~= old(self).session.tracks@);
    }

    /// Append a segment to the first track with the given identifier.
    pub fn add_segment_to_track(&mut self, track_id: &str, segment: Segment) -> (r: Result<
        (),
        CluvError,
    >)
        ensures
            r is Ok <==> exists|i: int|
                0 <= i < old(self).session.tracks@.len() && (
                #[trigger] old(self).session.tracks@[i]).id@ == track_id@,
            r is Err ==> *final(self) == *old(self),
            r matches Err(e) ==> e matches CluvError::InvalidParams(s) && s@ == "Track '"@
                + track_id@ + "' not found"@,
    {
        let r = self.session.add_segment_to_track(track_id, segment);
        r
    }

    /// Check the session.
    pub fn validate(&self) -> (r: Result<(), CluvError>)
        ensures
            r is Ok <==> self.session.valid_spec(),
    {
        self.session.validate()
    }
}

impl Default for Editor {
    /// The default editor: see `new`.
    fn default() -> (r: Editor)
        ensures
            r.session.stage == (Stage { width: 1920, height: 1080 }),
            r.session.materials@.len() == 0,
            r.session.tracks@.len() == 0,
    {
        Editor::new()
    }
}

} // verus!

verus! {

/// Peeling the front track off a reversed compilation: the nodes of the
/// remaining tracks, then the nodes of the peeled track.
pub proof fn lemma_tracks_video_step(ts: Seq<Track>, j: int, hi: int)
    requires
        0 <= j < hi <= ts.len(),
    ensures
        tracks_video_nodes(ts.subrange(j, hi)) == tracks_video_nodes(ts.subrange(j + 1, hi)) + (
        if ts[j].track_type == TrackType::Video && ts[j].enabled {
            track_video_nodes(ts[j].segments@)
        } else {
            Seq::<(Seq<char>, Seq<Seq<char>>, int)>::empty()
        }),
    decreases hi - j,
{
    let part = (if ts[j].track_type == TrackType::Video && ts[j].enabled {
        track_video_nodes(ts[j].segments@)
    } else {
        Seq::<(Seq<char>, Seq<Seq<char>>, int)>::empty()
    });
    let sub = ts.subrange(j, hi);
    if hi - j == 1 {
        assert(sub.drop_last() =~= ts.subrange(j + 1, hi));
        assert(sub.last() == ts[j]);
        assert(tracks_video_nodes(sub) =~= tracks_video_nodes(ts.subrange(j + 1, hi)) + part);
    } else {
        lemma_tracks_video_step(ts, j, hi - 1);
        assert(sub.drop_last() =~= ts.subrange(j, hi - 1));
        assert(sub.last() == ts[hi - 1]);
        let tail = (if ts[hi - 1].track_type == TrackType::Video && ts[hi - 1].enabled {
            track_video_nodes(ts[hi - 1].segments@)
        } else {
            Seq::<(Seq<char>, Seq<Seq<char>>, int)>::empty()
        });
        assert(tracks_video_nodes(sub) == tail + tracks_video_nodes(ts.subrange(j, hi - 1)));
        let sub2 = ts.subrange(j + 1, hi);
        assert(sub2.drop_last() =~= ts.subrange(j + 1, hi - 1));
        assert(sub2.last() == ts[hi - 1]);
        assert(tracks_video_nodes(sub2) == tail + tracks_video_nodes(ts.subrange(j + 1, hi - 1)));
        assert(tail + (tracks_video_nodes(ts.subrange(j + 1, hi - 1)) + part) =~= (tail
            + tracks_video_nodes(ts.subrange(j + 1, hi - 1))) + part);
    }
}

/// The number of bindings never exceeds the number of segments.
pub proof fn lemma_bindings_len(segs: Seq<Segment>, materials: Seq<Material>)
    ensures
        bindings(segs, materials).len() <= segs.len(),
        bound_ids(segs, materials).len() == bindings(segs, materials).len(),
    decreases segs.len(),
{
    if segs.len() > 0 {
        lemma_bindings_len(segs.drop_last(), materials);
    }
}

/// The audio segments of a track prefix are a prefix of the whole's.
pub proof fn lemma_audio_segs_prefix(ts: Seq<Track>, k: int)
    requires
        0 <= k <= ts.len(),
    ensures
        audio_segs(ts.subrange(0, k)).len() <= audio_segs(ts).len(),
        audio_segs(ts.subrange(0, k)) == audio_segs(ts).subrange(
            0,
            audio_segs(ts.subrange(0, k)).len() as int,
        ),
    decreases ts.len() - k,
{
    if k == ts.len() {
        assert(ts.subrange(0, k) =~= ts);
        assert(audio_segs(ts).subrange(0, audio_segs(ts).len() as int) =~= audio_segs(ts));
    } else {
        lemma_audio_segs_prefix(ts, k + 1);
        let t = ts.subrange(0, k + 1);
        assert(t.drop_last() =~= ts.subrange(0, k));
        assert(t.last() == ts[k]);
        let a_k = audio_segs(ts.subrange(0, k));
        let a_k1 = audio_segs(t);
        assert(a_k1.subrange(0, a_k.len() as int) =~= a_k);
        assert(audio_segs(ts).subrange(0, a_k1.len() as int).subrange(0, a_k.len() as int)
            =~= audio_segs(ts).subrange(0, a_k.len() as int));
    }
}

/// There are no more audio segments than segments overall.
pub proof fn lemma_audio_segs_len(ts: Seq<Track>)
    ensures
        audio_segs(ts).len() <= all_segments(ts).len(),
    decreases ts.len(),
{
    if ts.len() > 0 {
        lemma_audio_segs_len(ts.drop_last());
    }
}

/// A prefix of the tracks yields no more segments than the whole.
pub proof fn lemma_all_segments_prefix_len(ts: Seq<Track>, k: int)
    requires
        0 <= k <= ts.len(),
    ensures
        all_segments(ts.subrange(0, k)).len() <= all_segments(ts).len(),
    decreases ts.len() - k,
{
    if k == ts.len() {
        assert(ts.subrange(0, k) =~= ts);
    } else {
        lemma_all_segments_prefix_len(ts, k + 1);
        let t = ts.subrange(0, k + 1);
        assert(t.drop_last() =~= ts.subrange(0, k));
        assert(t.last() == ts[k]);
    }
}

} // verus!

verus! {

/// The first index holding the given view, or the length when absent.
pub open spec fn index_in(views: Seq<Seq<char>>, x: Seq<char>) -> int
    decreases views.len(),
{
    if views.len() == 0 {
        0
    } else if views.first() == x {
        0
    } else {
        1 + index_in(views.drop_first(), x)
    }
}

/// A match with no earlier match sits at the first index.
pub proof fn lemma_index_in_found(views: Seq<Seq<char>>, x: Seq<char>, p: int)
    requires
        0 <= p < views.len(),
        views[p] == x,
        forall|j: int| 0 <= j < p ==> views[j] != x,
    ensures
        index_in(views, x) == p,
    decreases p,
{
    if p == 0 {
    } else {
        assert(views[0] != x);
        lemma_index_in_found(views.drop_first(), x, p - 1);
    }
}

/// Find the position of an identifier in the bound list; the first match
/// is reported.
fn find_bound(ids: &Vec<String>, id: &str) -> (r: Option<usize>)
    ensures
        r matches Some(p) ==> 0 <= p < ids@.len() && string_views(ids@)[p as int] == id@
            && p as int == index_in(string_views(ids@), id@),
        r is None ==> !crate::protocol::contains_view(string_views(ids@), id@),
{
    let n = ids.len();
    let mut i: usize = 0;
    while i < n
        invariant
            n == ids@.len(),
            0 <= i <= n,
            forall|j: int| 0 <= j < i ==> string_views(ids@)[j] != id@,
        decreases n - i,
    {
        if strutil::str_eq(ids[i].as_str(), id) {
            assert(string_views(ids@)[i as int] == id@);
            proof {
                lemma_index_in_found(string_views(ids@), id@, i as int);
            }
            return Some(i);
        }
        i = i + 1;
    }
    None
}

/// An equal copy of a string list.
fn copy_strings(v: &Vec<String>) -> (r: Vec<String>)
    ensures
        r@ == v@,
{
    let n = v.len();
    let mut r: Vec<String> = Vec::new();
    let mut i: usize = 0;
    while i < n
        invariant
            n == v@.len(),
            0 <= i <= n,
            r@ == v@.subrange(0, i as int),
        decreases n - i,
    {
        r.push(v[i].clone());
        assert(r@ =~= v@.subrange(0, i + 1));
        i = i + 1;
    }
    assert(v@.subrange(0, n as int) =~= v@);
    r
}

/// An equal copy of a pair list.
fn copy_pairs(v: &Vec<(String, String)>) -> (r: Vec<(String, String)>)
    ensures
        r@ == v@,
{
    let n = v.len();
    let mut r: Vec<(String, String)> = Vec::new();
    let mut i: usize = 0;
    while i < n
        invariant
            n == v@.len(),
            0 <= i <= n,
            r@ == v@.subrange(0, i as int),
        decreases n - i,
    {
        r.push((v[i].0.clone(), v[i].1.clone()));
        assert(r@ =~= v@.subrange(0, i + 1));
        i = i + 1;
    }
    assert(v@.subrange(0, n as int) =~= v@);
    r
}

/// An equal copy of the engine options.
fn copy_engine_options(o: &FFmpegOptions) -> (r: FFmpegOptions)
    ensures
        r.binary_path == o.binary_path,
        r.log_level == o.log_level,
        r.overwrite == o.overwrite,
        r.debug == o.debug,
        r.dry_run == o.dry_run,
        r.custom_args@ == o.custom_args@,
        r.env_vars.entries@ == o.env_vars.entries@,
    {
    FFmpegOptions {
        binary_path: o.binary_path.clone(),
        log_level: o.log_level,
        overwrite: o.overwrite,
        debug: o.debug,
        dry_run: o.dry_run,
        custom_args: copy_strings(&o.custom_args),
        env_vars: KvList { entries: copy_pairs(&o.env_vars.entries) },
    }
}

} // verus!

verus! {

impl Editor {
    /// Bind one engine input per distinct referenced material, scanning
    /// tracks and segments in stored order; the returned list holds the
    /// bound identifiers, index-aligned with the inputs.
    fn bind_inputs(&self, ff: &mut FFmpeg) -> (r: Vec<String>)
        requires
            self.session.wf(),
            self.session.valid_spec(),
            all_segments(self.session.tracks@).len() < 0x8000_0000,
            old(ff).inputs@.len() == 0,
            old(ff).input_counter == 0,
            old(ff).filters@.len() == 0,
            old(ff).outputs@.len() == 0,
        ensures
            final(ff).filters@.len() == 0,
            final(ff).outputs@.len() == 0,
            final(ff).ffmpeg_options == old(ff).ffmpeg_options,
            string_views(r@) == bound_ids(
                all_segments(self.session.tracks@),
                self.session.materials@,
            ),
            final(ff).inputs@.len() == bindings(
                all_segments(self.session.tracks@),
                self.session.materials@,
            ).len(),
            final(ff).input_counter == final(ff).inputs@.len(),
            r@.len() == final(ff).inputs@.len(),
            forall|k: int|
                0 <= k < final(ff).inputs@.len() ==> {
                    let b = bindings(
                        all_segments(self.session.tracks@),
                        self.session.materials@,
                    )[k];
                    let inp = #[trigger] final(ff).inputs@[k];
                    inp.idx == k && inp.path@ == b.0 && inp.start_time == Some(b.1)
                        && inp.duration == Some(b.2) && inp.format is None
                        && inp.framerate is None && inp.options@.len() == 0
                },
    {
        let ghost tracks = self.session.tracks@;
        let ghost mats = self.session.materials@;
        let mut seen: Vec<String> = Vec::new();
        let nt = self.session.tracks.len();
        let mut ti: usize = 0;
        while ti < nt
            invariant
                self.session.wf(),
                self.session.valid_spec(),
                tracks == self.session.tracks@,
                mats == self.session.materials@,
                all_segments(tracks).len() < 0x8000_0000,
                nt == tracks.len(),
                0 <= ti <= nt,
                ff.filters@.len() == 0,
                ff.outputs@.len() == 0,
                ff.ffmpeg_options == old(ff).ffmpeg_options,
                string_views(seen@) == bound_ids(
                    all_segments(tracks.subrange(0, ti as int)),
                    mats,
                ),
                ff.inputs@.len() == bindings(
                    all_segments(tracks.subrange(0, ti as int)),
                    mats,
                ).len(),
                ff.input_counter == ff.inputs@.len(),
                seen@.len() == ff.inputs@.len(),
                forall|k: int|
                    0 <= k < ff.inputs@.len() ==> {
                        let b = bindings(all_segments(tracks.subrange(0, ti as int)), mats)[k];
                        let inp = #[trigger] ff.inputs@[k];
                        inp.idx == k && inp.path@ == b.0 && inp.start_time == Some(b.1)
                            && inp.duration == Some(b.2) && inp.format is None
                            && inp.framerate is None && inp.options@.len() == 0
                    },
            decreases nt - ti,
        {
            let ghost done = all_segments(tracks.subrange(0, ti as int));
            let track = &self.session.tracks[ti];
            let ns = track.segments.len();
            let mut si: usize = 0;
            while si < ns
                invariant
                    self.session.wf(),
                    self.session.valid_spec(),
                    tracks == self.session.tracks@,
                    mats == self.session.materials@,
                    all_segments(tracks).len() < 0x8000_0000,
                    nt == tracks.len(),
                    0 <= ti < nt,
                    track == &tracks[ti as int],
                    done == all_segments(tracks.subrange(0, ti as int)),
                    ns == track.segments@.len(),
                    0 <= si <= ns,
                    ff.filters@.len() == 0,
                    ff.outputs@.len() == 0,
                    ff.ffmpeg_options == old(ff).ffmpeg_options,
                    string_views(seen@) == bound_ids(
                        done + track.segments@.subrange(0, si as int),
                        mats,
                    ),
                    ff.inputs@.len() == bindings(
                        done + track.segments@.subrange(0, si as int),
                        mats,
                    ).len(),
                    ff.input_counter == ff.inputs@.len(),
                    seen@.len() == ff.inputs@.len(),
                    forall|k: int|
                        0 <= k < ff.inputs@.len() ==> {
                            let b = bindings(
                                done + track.segments@.subrange(0, si as int),
                                mats,
                            )[k];
                            let inp = #[trigger] ff.inputs@[k];
                            inp.idx == k && inp.path@ == b.0 && inp.start_time == Some(b.1)
                                && inp.duration == Some(b.2) && inp.format is None
                                && inp.framerate is None && inp.options@.len() == 0
                        },
                decreases ns - si,
            {
                let ghost processed = done + track.segments@.subrange(0, si as int);
                let ghost processed2 = done + track.segments@.subrange(0, si + 1);
                proof {
                    assert(processed2 =~= processed.push(track.segments@[si as int]));
                    assert(processed2.drop_last() =~= processed);
                    assert(processed2.last() == track.segments@[si as int]);
                    lemma_bindings_len(processed, mats);
                    lemma_bindings_len(done, mats);
                    lemma_all_segments_prefix_len(tracks, ti as int);
                    assert(all_segments(tracks.subrange(0, ti + 1)).len() <= all_segments(
                        tracks,
                    ).len()) by {
                        lemma_all_segments_prefix_len(tracks, ti + 1);
                    }
                    assert(all_segments(tracks.subrange(0, ti + 1)) =~= done + track.segments@)
                        by {
                        let t = tracks.subrange(0, ti + 1);
                        assert(t.drop_last() =~= tracks.subrange(0, ti as int));
                        assert(t.last() == tracks[ti as int]);
                    }
                    assert(processed.len() <= all_segments(tracks).len());
                }
                let seg = &track.segments[si];
                match find_bound(&seen, seg.material_id.as_str()) {
                    Some(_) => {
                        proof {
                            assert(crate::protocol::contains_view(
                                string_views(seen@),
                                seg.material_id@,
                            ));
                            assert(bound_ids(processed2, mats) == bound_ids(processed, mats));
                            assert(bindings(processed2, mats) == bindings(processed, mats));
                        }
                    },
                    None => {
                        match self.session.get_material(seg.material_id.as_str()) {
                            Some(m) => {
                                proof {
                                    assert(resolves(mats, seg.material_id@));
                                    assert(first_material_src(mats, seg.material_id@)
                                        == m.src_view()) by {
                                        lemma_first_material_src(mats, seg.material_id@);
                                    }
                                }
                                let input = Input::with_time(
                                    seg.source_timerange.start,
                                    seg.source_timerange.duration,
                                    m.src(),
                                );
                                let ghost pre_inputs = ff.inputs@;
                                ff.add_input(input);
                                seen.push(seg.material_id.clone());
                                proof {
                                    strutil::lemma_string_views_push(
                                        seen@.drop_last(),
                                        seen@,
                                    );
                                    assert(string_views(seen@) =~= bound_ids(processed2, mats));
                                    let b_new = (
                                        first_material_src(mats, seg.material_id@),
                                        seg.source_timerange.start,
                                        seg.source_timerange.duration,
                                    );
                                    assert(bindings(processed2, mats) =~= bindings(
                                        processed,
                                        mats,
                                    ).push(b_new));
                                    assert forall|k: int| 0 <= k < ff.inputs@.len() implies {
                                        let b = bindings(processed2, mats)[k];
                                        let inp = #[trigger] ff.inputs@[k];
                                        inp.idx == k && inp.path@ == b.0 && inp.start_time
                                            == Some(b.1) && inp.duration == Some(b.2)
                                            && inp.format is None && inp.framerate is None
                                            && inp.options@.len() == 0
                                    } by {
                                        if k < pre_inputs.len() {
                                            assert(ff.inputs@[k] == pre_inputs[k]);
                                            assert(bindings(processed2, mats)[k] == bindings(
                                                processed,
                                                mats,
                                            )[k]);
                                        } else {
                                            assert(ff.inputs@[k] == ff.inputs@.last());
                                            assert(bindings(processed2, mats)[k] == b_new);
                                        }
                                    }
                                }
                            },
                            None => {
                                proof {
                                    assert(!resolves(mats, seg.material_id@));
                                    assert(bound_ids(processed2, mats) == bound_ids(
                                        processed,
                                        mats,
                                    ));
                                    assert(bindings(processed2, mats) == bindings(
                                        processed,
                                        mats,
                                    ));
                                }
                            },
                        }
                    },
                }
                si = si + 1;
            }
            proof {
                assert(done + track.segments@.subrange(0, ns as int) =~= all_segments(
                    tracks.subrange(0, ti + 1),
                )) by {
                    assert(track.segments@.subrange(0, ns as int) =~= track.segments@);
                    let t = tracks.subrange(0, ti + 1);
                    assert(t.drop_last() =~= tracks.subrange(0, ti as int));
                    assert(t.last() == tracks[ti as int]);
                }
            }
            ti = ti + 1;
        }
        proof {
            assert(tracks.subrange(0, nt as int) =~= tracks);
        }
        seen
    }
}

/// The source of the first matching material is the one `get_material`
/// finds.
pub proof fn lemma_first_material_src(materials: Seq<Material>, id: Seq<char>)
    requires
        resolves(materials, id),
    ensures
        exists|i: int|
            {
                &&& 0 <= i < materials.len()
                &&& (#[trigger] materials[i]).id_view() == id
                &&& (forall|j: int| 0 <= j < i ==> materials[j].id_view() != id)
                &&& first_material_src(materials, id) == materials[i].src_view()
            },
    decreases materials.len(),
{
    if materials.first().id_view() == id {
        assert(materials[0].id_view() == id);
        assert(first_material_src(materials, id) == materials[0].src_view());
    } else {
        assert(resolves(materials.drop_first(), id)) by {
            let w = choose|w: int|
                0 <= w < materials.len() && (#[trigger] materials[w]).id_view() == id;
            assert(materials.drop_first()[w - 1] == materials[w]);
        }
        lemma_first_material_src(materials.drop_first(), id);
        let i = choose|i: int|
            {
                &&& 0 <= i < materials.drop_first().len()
                &&& (#[trigger] materials.drop_first()[i]).id_view() == id
                &&& (forall|j: int|
                    0 <= j < i ==> materials.drop_first()[j].id_view() != id)
                &&& first_material_src(materials.drop_first(), id)
                    == materials.drop_first()[i].src_view()
            };
        assert(materials[i + 1].id_view() == id);
        assert(forall|j: int| 0 <= j < i + 1 ==> materials[j].id_view() != id) by {
            assert(forall|j: int|
                1 <= j < i + 1 ==> materials[j] == materials.drop_first()[j - 1]);
        }
        assert(first_material_src(materials, id) == materials[i + 1].src_view());
    }
}

} // verus!

verus! {

impl Editor {
    /// Composite the enabled video tracks onto the canvas, in reverse
    /// stored order; the final canvas selector is returned.
    #[verifier::rlimit(100)]
    #[verifier::spinoff_prover]
    fn emit_video_tracks(&self, ff: &mut FFmpeg, seen: &Vec<String>, canvas: Stream) -> (r:
        Stream)
        requires
            self.session.wf(),
            self.session.valid_spec(),
            all_segments(self.session.tracks@).len() < 0x8000_0000,
            string_views(seen@) == bound_ids(
                all_segments(self.session.tracks@),
                self.session.materials@,
            ),
            seen@.len() < 0x8000_0000,
        ensures
            graph_abs(final(ff).filters@) == graph_abs(old(ff).filters@) + tracks_video_nodes(
                self.session.tracks@,
            ),
            forall|i: int|
                0 <= i < old(ff).filters@.len() ==> #[trigger] final(ff).filters@[i] == old(
                    ff,
                ).filters@[i],
            forall|i: int|
                old(ff).filters@.len() <= i < final(ff).filters@.len() ==> (
                #[trigger] final(ff).filters@[i]).label.0@ == filter_label_view(i as nat),
            tracks_video_nodes(self.session.tracks@).len() == 0 ==> r == canvas,
            tracks_video_nodes(self.session.tracks@).len() > 0 ==> (r.label matches Some(l) && l@
                == filter_label_view(
                (old(ff).filters@.len() + tracks_video_nodes(self.session.tracks@).len() - 1)
                    as nat,
            )),
            final(ff).inputs == old(ff).inputs,
            final(ff).outputs == old(ff).outputs,
            final(ff).input_counter == old(ff).input_counter,
            final(ff).ffmpeg_options == old(ff).ffmpeg_options,
    {
        let ghost tracks = self.session.tracks@;
        let ghost mats = self.session.materials@;
        let ghost base = graph_abs(old(ff).filters@);
        let ghost base_len = old(ff).filters@.len() as int;
        let nt = self.session.tracks.len();
        let mut cur_canvas = canvas;
        let mut ti: usize = nt;
        while ti > 0
            invariant
                self.session.wf(),
                self.session.valid_spec(),
                tracks == self.session.tracks@,
                mats == self.session.materials@,
                all_segments(tracks).len() < 0x8000_0000,
                string_views(seen@) == bound_ids(all_segments(tracks), mats),
                seen@.len() < 0x8000_0000,
                nt == tracks.len(),
                0 <= ti <= nt,
                base == graph_abs(old(ff).filters@),
                base_len == old(ff).filters@.len() as int,
                graph_abs(ff.filters@) == base + tracks_video_nodes(
                    tracks.subrange(ti as int, nt as int),
                ),
                forall|i: int|
                    0 <= i < base_len ==> #[trigger] ff.filters@[i] == old(ff).filters@[i],
                forall|i: int|
                    base_len <= i < ff.filters@.len() ==> (
                    #[trigger] ff.filters@[i]).label.0@ == filter_label_view(i as nat),
                ff.filters@.len() as int == base_len ==> cur_canvas == canvas,
                ff.filters@.len() as int > base_len ==> (cur_canvas.label matches Some(l) && l@
                    == filter_label_view((ff.filters@.len() - 1) as nat)),
                ff.inputs == old(ff).inputs,
                ff.outputs == old(ff).outputs,
                ff.input_counter == old(ff).input_counter,
                ff.ffmpeg_options == old(ff).ffmpeg_options,
            decreases ti,
        {
            ti = ti - 1;
            let ghost done = tracks_video_nodes(tracks.subrange(ti + 1, nt as int));
            proof {
                lemma_tracks_video_step(tracks, ti as int, nt as int);
            }
            let track = &self.session.tracks[ti];
            let is_video = match track.track_type {
                TrackType::Video => true,
                _ => false,
            };
            if is_video && track.enabled {
                let ns = track.segments.len();
                let mut si: usize = 0;
                while si < ns
                    invariant
                        self.session.wf(),
                        self.session.valid_spec(),
                        tracks == self.session.tracks@,
                        mats == self.session.materials@,
                        all_segments(tracks).len() < 0x8000_0000,
                        string_views(seen@) == bound_ids(all_segments(tracks), mats),
                        seen@.len() < 0x8000_0000,
                        nt == tracks.len(),
                        0 <= ti < nt,
                        track == &tracks[ti as int],
                        ns == track.segments@.len(),
                        0 <= si <= ns,
                        base == graph_abs(old(ff).filters@),
                        base_len == old(ff).filters@.len() as int,
                        done == tracks_video_nodes(tracks.subrange(ti + 1, nt as int)),
                        graph_abs(ff.filters@) == base + done + track_video_nodes(
                            track.segments@.subrange(0, si as int),
                        ),
                        forall|i: int|
                            0 <= i < base_len ==> #[trigger] ff.filters@[i] == old(
                                ff,
                            ).filters@[i],
                        forall|i: int|
                            base_len <= i < ff.filters@.len() ==> (
                            #[trigger] ff.filters@[i]).label.0@ == filter_label_view(i as nat),
                        ff.filters@.len() as int == base_len ==> cur_canvas == canvas,
                        ff.filters@.len() as int > base_len ==> (cur_canvas.label matches Some(
                            l,
                        ) && l@ == filter_label_view((ff.filters@.len() - 1) as nat)),
                        ff.inputs == old(ff).inputs,
                        ff.outputs == old(ff).outputs,
                        ff.input_counter == old(ff).input_counter,
                        ff.ffmpeg_options == old(ff).ffmpeg_options,
                    decreases ns - si,
                {
                    let seg = &track.segments[si];
                    proof {
                        assert(tracks[ti as int].segments@[si as int].valid_spec());
                        assert(tracks[ti as int].segments@[si as int].wf());
                        assert(resolves(mats, seg.material_id@));
                        lemma_all_segments_index(tracks, ti as int, si as int);
                        let j = choose|j: int|
                            0 <= j < all_segments(tracks).len() && #[trigger] all_segments(
                                tracks,
                            )[j] == tracks[ti as int].segments@[si as int];
                        lemma_all_refs_bound(all_segments(tracks), mats, j);
                    }
                    let p = match find_bound(seen, seg.material_id.as_str()) {
                        Some(p) => p,
                        None => {
                            proof {
                                assert(false);
                            }
                            0
                        },
                    };
                    let mut last: Stream = Stream::video(p as i32);
                    let ghost g0 = graph_abs(ff.filters@);
                    if let Some(d) = seg.scale {
                        let prev = last;
                        let mut iv: Vec<StreamInput> = Vec::new();
                        iv.push(StreamInput::Stream(prev));
                        last = ff.add_filter(Filter::scale(d.width, d.height), iv);
                        proof {
                            assert(graph_abs(ff.filters@) =~= g0 + seq![
                                (
                                    "scale"@,
                                    seq![scale_side_view(d.width), scale_side_view(d.height)],
                                    1int,
                                ),
                            ]);
                        }
                    }
                    let ghost g1 = graph_abs(ff.filters@);
                    if seg.source_timerange.duration != seg.target_timerange.duration {
                        let sp = seg.playback_speed_milli();
                        let sps = strutil::milli_to_decimal_string(sp);
                        let mut expr = String::from_str("1/");
                        expr.append(sps.as_str());
                        expr.append("*PTS");
                        let prev = last;
                        let mut iv: Vec<StreamInput> = Vec::new();
                        iv.push(StreamInput::Stream(prev));
                        last = ff.add_filter(Filter::setpts(expr.as_str()), iv);
                        proof {
                            assert(graph_abs(ff.filters@) =~= g1 + seq![
                                (
                                    "setpts"@,
                                    seq![
                                        "1/"@ + milli_dec_view(
                                            speed_milli(tracks[ti as int].segments@[si as int])
                                                as nat,
                                        ) + "*PTS"@,
                                    ],
                                    1int,
                                ),
                            ]);
                        }
                    }
                    let ghost g2 = graph_abs(ff.filters@);
                    let ts_str = strutil::milli_to_decimal_string(
                        seg.target_timerange.start as u64,
                    );
                    let mut place = String::from_str("PTS+");
                    place.append(ts_str.as_str());
                    place.append("/TB");
                    let prev = last;
                    let mut iv: Vec<StreamInput> = Vec::new();
                    iv.push(StreamInput::Stream(prev));
                    last = ff.add_filter(Filter::setpts(place.as_str()), iv);
                    proof {
                        assert(graph_abs(ff.filters@) =~= g2 + seq![
                            (
                                "setpts"@,
                                seq![
                                    "PTS+"@ + milli_dec_view(
                                        seg.target_timerange.start as nat,
                                    ) + "/TB"@,
                                ],
                                1int,
                            ),
                        ]);
                    }
                    let ghost g3 = graph_abs(ff.filters@);
                    let x = match seg.position {
                        Some(q) => q.x,
                        None => 0,
                    };
                    let y = match seg.position {
                        Some(q) => q.y,
                        None => 0,
                    };
                    let te: u64 = seg.target_timerange.start as u64
                        + seg.target_timerange.duration as u64;
                    let te_str = strutil::milli_to_decimal_string(te);
                    let mut enable = String::from_str("enable='between(t,");
                    enable.append(ts_str.as_str());
                    enable.append(",");
                    enable.append(te_str.as_str());
                    enable.append(")'");
                    let prev_canvas = cur_canvas;
                    let chain_end = last;
                    let mut iv: Vec<StreamInput> = Vec::new();
                    iv.push(StreamInput::Stream(prev_canvas));
                    iv.push(StreamInput::Stream(chain_end));
                    cur_canvas = ff.add_filter(
                        Filter::overlay_with_enable(x, y, enable.as_str()),
                        iv,
                    );
                    proof {
                        let segv = tracks[ti as int].segments@[si as int];
                        assert(graph_abs(ff.filters@) =~= g3 + seq![
                            (
                                "overlay"@,
                                seq![
                                    int_str(x as int) + ":"@ + int_str(y as int),
                                    "enable='between(t,"@ + milli_dec_view(
                                        segv.target_timerange.start as nat,
                                    ) + ","@ + milli_dec_view(
                                        segv.target_timerange.start as nat
                                            + segv.target_timerange.duration as nat,
                                    ) + ")'"@,
                                ],
                                2int,
                            ),
                        ]);
                        assert(track.segments@.subrange(0, si + 1).drop_last()
                            =~= track.segments@.subrange(0, si as int));
                        assert(track.segments@.subrange(0, si + 1).last() == segv);
                        assert(graph_abs(ff.filters@) =~= base + done + track_video_nodes(
                            track.segments@.subrange(0, si + 1),
                        ));
                    }
                    si = si + 1;
                }
                proof {
                    assert(track.segments@.subrange(0, ns as int) =~= track.segments@);
                }
            }
        }
        proof {
            assert(tracks.subrange(0, nt as int) =~= tracks);
        }
        cur_canvas
    }
}

} // verus!

verus! {

impl Editor {
    /// Build the audio chains of the enabled, unmuted audio tracks, in
    /// stored order; one stream selector per audio segment is returned,
    /// each pinned to its chain's output (or to its bound input when the
    /// chain is empty).
    #[verifier::rlimit(100)]
    #[verifier::spinoff_prover]
    fn emit_audio_tracks(&self, ff: &mut FFmpeg, seen: &Vec<String>) -> (r: Vec<Stream>)
        requires
            self.session.wf(),
            self.session.valid_spec(),
            all_segments(self.session.tracks@).len() < 0x8000_0000,
            string_views(seen@) == bound_ids(
                all_segments(self.session.tracks@),
                self.session.materials@,
            ),
            seen@.len() < 0x8000_0000,
        ensures
            graph_abs(final(ff).filters@) == graph_abs(old(ff).filters@) + audio_chain_nodes(
                audio_segs(self.session.tracks@),
            ),
            forall|i: int|
                0 <= i < old(ff).filters@.len() ==> #[trigger] final(ff).filters@[i] == old(
                    ff,
                ).filters@[i],
            forall|i: int|
                old(ff).filters@.len() <= i < final(ff).filters@.len() ==> (
                #[trigger] final(ff).filters@[i]).label.0@ == filter_label_view(i as nat),
            r@.len() == audio_segs(self.session.tracks@).len(),
            forall|k: int|
                0 <= k < r@.len() ==> (#[trigger] r@[k]).specifier_view() == audio_out_spec_at(
                    audio_segs(self.session.tracks@),
                    old(ff).filters@.len() as int,
                    bound_ids(all_segments(self.session.tracks@), self.session.materials@),
                    k,
                ),
            final(ff).inputs == old(ff).inputs,
            final(ff).outputs == old(ff).outputs,
            final(ff).input_counter == old(ff).input_counter,
            final(ff).ffmpeg_options == old(ff).ffmpeg_options,
    {
        let ghost tracks = self.session.tracks@;
        let ghost mats = self.session.materials@;
        let ghost base = graph_abs(old(ff).filters@);
        let ghost base_len = old(ff).filters@.len() as int;
        let ghost apairs = audio_segs(tracks);
        let ghost bound = bound_ids(all_segments(tracks), mats);
        let nt = self.session.tracks.len();
        let mut streams: Vec<Stream> = Vec::new();
        let mut ti: usize = 0;
        while ti < nt
            invariant
                self.session.wf(),
                self.session.valid_spec(),
                tracks == self.session.tracks@,
                mats == self.session.materials@,
                all_segments(tracks).len() < 0x8000_0000,
                string_views(seen@) == bound_ids(all_segments(tracks), mats),
                seen@.len() < 0x8000_0000,
                apairs == audio_segs(tracks),
                bound == bound_ids(all_segments(tracks), mats),
                nt == tracks.len(),
                0 <= ti <= nt,
                base == graph_abs(old(ff).filters@),
                base_len == old(ff).filters@.len() as int,
                graph_abs(ff.filters@) == base + audio_chain_nodes(
                    audio_segs(tracks.subrange(0, ti as int)),
                ),
                forall|i: int|
                    0 <= i < base_len ==> #[trigger] ff.filters@[i] == old(ff).filters@[i],
                forall|i: int|
                    base_len <= i < ff.filters@.len() ==> (
                    #[trigger] ff.filters@[i]).label.0@ == filter_label_view(i as nat),
                streams@.len() == audio_segs(tracks.subrange(0, ti as int)).len(),
                forall|k: int|
                    0 <= k < streams@.len() ==> (#[trigger] streams@[k]).specifier_view()
                        == audio_out_spec_at(apairs, base_len, bound, k),
                ff.inputs == old(ff).inputs,
                ff.outputs == old(ff).outputs,
                ff.input_counter == old(ff).input_counter,
                ff.ffmpeg_options == old(ff).ffmpeg_options,
            decreases nt - ti,
        {
            let ghost adone = audio_segs(tracks.subrange(0, ti as int));
            proof {
                let t = tracks.subrange(0, ti + 1);
                assert(t.drop_last() =~= tracks.subrange(0, ti as int));
                assert(t.last() == tracks[ti as int]);
            }
            let track = &self.session.tracks[ti];
            let is_audio = match track.track_type {
                TrackType::Audio => true,
                _ => false,
            };
            if is_audio && track.enabled && !track.muted {
                let ghost pairs = track.segments@.map_values(
                    |s: Segment| (s, tracks[ti as int].volume),
                );
                proof {
                    assert(adone + pairs =~= audio_segs(tracks.subrange(0, ti + 1)));
                    lemma_audio_segs_prefix(tracks, ti + 1);
                }
                let ns = track.segments.len();
                let mut si: usize = 0;
                while si < ns
                    invariant
                        self.session.wf(),
                        self.session.valid_spec(),
                        tracks == self.session.tracks@,
                        mats == self.session.materials@,
                        all_segments(tracks).len() < 0x8000_0000,
                        string_views(seen@) == bound_ids(all_segments(tracks), mats),
                        seen@.len() < 0x8000_0000,
                        apairs == audio_segs(tracks),
                        bound == bound_ids(all_segments(tracks), mats),
                        nt == tracks.len(),
                        0 <= ti < nt,
                        track == &tracks[ti as int],
                        track.track_type == TrackType::Audio && track.enabled && !track.muted,
                        ns == track.segments@.len(),
                        0 <= si <= ns,
                        base == graph_abs(old(ff).filters@),
                        base_len == old(ff).filters@.len() as int,
                        adone == audio_segs(tracks.subrange(0, ti as int)),
                        pairs == track.segments@.map_values(
                            |s: Segment| (s, tracks[ti as int].volume),
                        ),
                        adone + pairs == audio_segs(tracks.subrange(0, ti + 1)),
                        adone.len() as int + pairs.len() as int <= apairs.len() as int,
                        audio_segs(tracks.subrange(0, ti + 1)) == apairs.subrange(
                            0,
                            adone.len() as int + pairs.len() as int,
                        ),
                        graph_abs(ff.filters@) == base + audio_chain_nodes(
                            adone + pairs.subrange(0, si as int),
                        ),
                        forall|i: int|
                            0 <= i < base_len ==> #[trigger] ff.filters@[i] == old(
                                ff,
                            ).filters@[i],
                        forall|i: int|
                            base_len <= i < ff.filters@.len() ==> (
                            #[trigger] ff.filters@[i]).label.0@ == filter_label_view(i as nat),
                        streams@.len() == adone.len() + si,
                        forall|k: int|
                            0 <= k < streams@.len() ==> (#[trigger] streams@[k]).specifier_view()
                                == audio_out_spec_at(apairs, base_len, bound, k),
                        ff.inputs == old(ff).inputs,
                        ff.outputs == old(ff).outputs,
                        ff.input_counter == old(ff).input_counter,
                        ff.ffmpeg_options == old(ff).ffmpeg_options,
                    decreases ns - si,
                {
                    let seg = &track.segments[si];
                    let ghost k0 = adone.len() + si;
                    let ghost chain_start = ff.filters@.len() as int;
                    proof {
                        assert(tracks[ti as int].segments@[si as int].valid_spec());
                        assert(tracks[ti as int].segments@[si as int].wf());
                        assert(resolves(mats, seg.material_id@));
                        lemma_all_segments_index(tracks, ti as int, si as int);
                        let j = choose|j: int|
                            0 <= j < all_segments(tracks).len() && #[trigger] all_segments(
                                tracks,
                            )[j] == tracks[ti as int].segments@[si as int];
                        lemma_all_refs_bound(all_segments(tracks), mats, j);
                        assert(pairs.len() == track.segments@.len());
                        assert(k0 < adone.len() + pairs.len());
                        assert((adone + pairs)[k0 as int] == pairs[si as int]);
                        assert(apairs.subrange(
                            0,
                            adone.len() as int + pairs.len() as int,
                        )[k0 as int] == apairs[k0 as int]);
                        assert(apairs[k0 as int] == pairs[si as int]);
                        assert forall|q: int| 0 <= q < k0 implies apairs[q] == (adone
                            + pairs.subrange(0, si as int))[q] by {
                            assert(apairs.subrange(
                                0,
                                adone.len() as int + pairs.len() as int,
                            )[q] == apairs[q]);
                            assert((adone + pairs)[q] == (adone + pairs.subrange(
                                0,
                                si as int,
                            ))[q]);
                        }
                        assert(apairs.subrange(0, k0 as int) =~= adone + pairs.subrange(
                            0,
                            si as int,
                        ));
                    }
                    let p = match find_bound(seen, seg.material_id.as_str()) {
                        Some(p) => p,
                        None => {
                            proof {
                                assert(false);
                            }
                            0
                        },
                    };
                    let mut last: Stream = Stream::audio(p as i32);
                    let ghost first_stream = last;
                    let ghost a0 = graph_abs(ff.filters@);
                    if seg.source_timerange.start > 0 || seg.source_timerange.duration
                        != seg.target_timerange.duration {
                        let prev = last;
                        let mut iv: Vec<StreamInput> = Vec::new();
                        iv.push(StreamInput::Stream(prev));
                        last = ff.add_filter(
                            Filter::atrim_millis(
                                seg.source_timerange.start as u64,
                                seg.source_timerange.duration as u64,
                            ),
                            iv,
                        );
                        let prev2 = last;
                        let mut iv2: Vec<StreamInput> = Vec::new();
                        iv2.push(StreamInput::Stream(prev2));
                        last = ff.add_filter(Filter::asetpts("PTS-STARTPTS"), iv2);
                        proof {
                            let segv = tracks[ti as int].segments@[si as int];
                            assert(graph_abs(ff.filters@) =~= a0 + seq![
                                (
                                    "atrim"@,
                                    seq![
                                        "start="@ + milli_dec_view(
                                            segv.source_timerange.start as nat,
                                        ),
                                        "duration="@ + milli_dec_view(
                                            segv.source_timerange.duration as nat,
                                        ),
                                    ],
                                    1int,
                                ),
                                ("asetpts"@, seq!["PTS-STARTPTS"@], 1int),
                            ]);
                        }
                    }
                    assert(ff.filters@.len() as int > chain_start ==> (last.label matches Some(
                        l,
                    ) && l@ == filter_label_view((ff.filters@.len() - 1) as nat)));
                    assert(ff.filters@.len() as int == chain_start ==> last == first_stream);
                    let ghost a1 = graph_abs(ff.filters@);
                    if track.volume != 1000 {
                        let prev = last;
                        let mut iv: Vec<StreamInput> = Vec::new();
                        iv.push(StreamInput::Stream(prev));
                        last = ff.add_filter(Filter::volume_milli(track.volume as u64), iv);
                        proof {
                            assert(graph_abs(ff.filters@) =~= a1 + seq![
                                (
                                    "volume"@,
                                    seq![milli_dec_view(tracks[ti as int].volume as nat)],
                                    1int,
                                ),
                            ]);
                        }
                    }
                    assert(ff.filters@.len() as int > chain_start ==> (last.label matches Some(
                        l,
                    ) && l@ == filter_label_view((ff.filters@.len() - 1) as nat)));
                    assert(ff.filters@.len() as int == chain_start ==> last == first_stream);
                    let ghost a2 = graph_abs(ff.filters@);
                    if seg.source_timerange.duration != seg.target_timerange.duration {
                        let sp = seg.playback_speed_milli();
                        let prev = last;
                        let mut iv: Vec<StreamInput> = Vec::new();
                        iv.push(StreamInput::Stream(prev));
                        last = ff.add_filter(Filter::atempo_milli(sp), iv);
                        proof {
                            assert(graph_abs(ff.filters@) =~= a2 + seq![
                                (
                                    "atempo"@,
                                    seq![
                                        milli_dec_view(
                                            speed_milli(
                                                tracks[ti as int].segments@[si as int],
                                            ) as nat,
                                        ),
                                    ],
                                    1int,
                                ),
                            ]);
                        }
                    }
                    assert(ff.filters@.len() as int > chain_start ==> (last.label matches Some(
                        l,
                    ) && l@ == filter_label_view((ff.filters@.len() - 1) as nat)));
                    assert(ff.filters@.len() as int == chain_start ==> last == first_stream);
                    let ghost a3 = graph_abs(ff.filters@);
                    if seg.target_timerange.start > 0 {
                        let prev = last;
                        let mut iv: Vec<StreamInput> = Vec::new();
                        iv.push(StreamInput::Stream(prev));
                        last = ff.add_filter(
                            Filter::adelay_millis(seg.target_timerange.start as u64),
                            iv,
                        );
                        proof {
                            assert(graph_abs(ff.filters@) =~= a3 + seq![
                                (
                                    "adelay"@,
                                    seq![
                                        dec_str(
                                            tracks[ti as int].segments@[si as int].target_timerange.start
                                                as nat,
                                        ) + "ms"@,
                                    ],
                                    1int,
                                ),
                            ]);
                        }
                    }
                    assert(ff.filters@.len() as int > chain_start ==> (last.label matches Some(
                        l,
                    ) && l@ == filter_label_view((ff.filters@.len() - 1) as nat)));
                    assert(ff.filters@.len() as int == chain_start ==> last == first_stream);
                    streams.push(last);
                    proof {
                        let segv = tracks[ti as int].segments@[si as int];
                        assert(pairs.subrange(0, si + 1).drop_last() =~= pairs.subrange(
                            0,
                            si as int,
                        ));
                        assert(pairs.subrange(0, si + 1).last() == (
                            segv,
                            tracks[ti as int].volume,
                        ));
                        assert((adone + pairs.subrange(0, si + 1)).drop_last() =~= adone
                            + pairs.subrange(0, si as int));
                        assert((adone + pairs.subrange(0, si + 1)).last() == (
                            segv,
                            tracks[ti as int].volume,
                        ));
                        assert(graph_abs(ff.filters@) =~= base + audio_chain_nodes(
                            adone + pairs.subrange(0, si + 1),
                        ));
                        // The chain grew by exactly this segment's node count,
                        // so the collected stream matches its specifier.
                        let c = seg_audio_nodes(segv, tracks[ti as int].volume).len() as int;
                        assert(ff.filters@.len() as int == chain_start + c);
                        assert(chain_start == base_len + audio_chain_nodes(
                            apairs.subrange(0, k0 as int),
                        ).len());
                        if c > 0 {
                            assert(streams@.last().specifier_view() == filter_label_view(
                                (base_len + audio_chain_nodes(apairs.subrange(0, k0 as int)).len()
                                    + c - 1) as nat,
                            ));
                        } else {
                            assert(last == first_stream);
                            assert(p as int == index_in(bound, segv.material_id@));
                            assert(streams@.last() == (Stream {
                                input_index: index_in(bound, segv.material_id@) as i32,
                                stream_type: crate::stream::StreamType::Audio,
                                may_not: false,
                                stream_index: None,
                                label: None,
                            }));
                        }
                        assert(streams@.last().specifier_view() == audio_out_spec_at(
                            apairs,
                            base_len,
                            bound,
                            k0 as int,
                        ));
                    }
                    si = si + 1;
                }
                proof {
                    assert(pairs.subrange(0, ns as int) =~= pairs);
                    assert(adone + pairs =~= audio_segs(tracks.subrange(0, ti + 1)));
                }
            } else {
                proof {
                    assert(audio_segs(tracks.subrange(0, ti + 1)) =~= adone);
                }
            }
            ti = ti + 1;
        }
        proof {
            assert(tracks.subrange(0, nt as int) =~= tracks);
        }
        streams
    }
}

} // verus!

verus! {

impl Editor {
    /// Compile the session into an engine command: deduplicated input
    /// bindings, the background canvas, the video chains in reverse track
    /// order, the audio chains, the mixing policy node, and one output
    /// with the selected codecs.
    ///
    /// Succeeds exactly when the session validates and the export kind is
    /// video or audio. The emitted node list is pinned down by
    /// `expected_filters`, every node carries its deterministic label, the
    /// output maps the final canvas and final audio streams by name, and
    /// the mix node references every collected audio chain; the command is
    /// never run here.
    #[verifier::rlimit(100)]
    #[verifier::spinoff_prover]
    pub fn compile(&self, options: &ExportOptions) -> (r: Result<FFmpeg, CluvError>)
        requires
            self.session.wf(),
            all_segments(self.session.tracks@).len() < 0x8000_0000,
        ensures
            r is Ok <==> (self.session.valid_spec() && options.export_type
                != ExportType::Image),
            r matches Ok(g) ==> graph_abs(g.filters@) == expected_filters(self.session),
            r matches Ok(g) ==> {
                let bs = bindings(
                    all_segments(self.session.tracks@),
                    self.session.materials@,
                );
                &&& g.inputs@.len() == bs.len()
                &&& forall|k: int|
                    0 <= k < g.inputs@.len() ==> {
                        let inp = #[trigger] g.inputs@[k];
                        inp.idx == k && inp.path@ == bs[k].0 && inp.start_time == Some(bs[k].1)
                            && inp.duration == Some(bs[k].2)
                    }
            },
            r matches Ok(g) ==> forall|i: int|
                0 <= i < g.filters@.len() ==> (#[trigger] g.filters@[i]).label.0@
                    == filter_label_view(i as nat),
            r matches Ok(g) ==> (audio_segs(self.session.tracks@).len() >= 2
                ==> input_specifiers(g.filters@.last().inputs@) == audio_out_specs(
                self.session,
            )),
            r matches Ok(g) ==> {
                let o = g.outputs@[0];
                &&& g.outputs@.len() == 1
                &&& o.path == options.output_file
                &&& o.options@ == options.custom_options.entries@
                &&& (options.export_type == ExportType::Video ==> {
                    &&& o.mappings@.len() == 2
                    &&& string_views(o.mappings@) == seq![
                        canvas_map_view(self.session),
                        audio_map_view(self.session),
                    ]
                    &&& (o.mov_flags matches Some(f) && f@ == "faststart"@)
                    &&& o.crf == options.quality
                    &&& o.video_bitrate == options.video_bitrate
                    &&& o.audio_bitrate == options.audio_bitrate
                    &&& (options.video_codec is None ==> o.video_codec == Some(
                        VideoCodec::H264,
                    ))
                    &&& (options.video_codec matches Some(s) ==> (o.video_codec matches Some(c)
                        && (c == VideoCodec::video_codec_of(s@) || (c matches
                    VideoCodec::Custom(cc) && cc@ == s@))))
                    &&& (options.audio_codec is None ==> o.audio_codec == Some(
                        AudioCodec::AAC,
                    ))
                    &&& (options.audio_codec matches Some(s) ==> (o.audio_codec matches Some(c)
                        && (c == AudioCodec::audio_codec_of(s@) || (c matches
                    AudioCodec::Custom(cc) && cc@ == s@))))
                })
                &&& (options.export_type == ExportType::Audio ==> {
                    &&& o.mappings@.len() == 1
                    &&& string_views(o.mappings@) == seq![audio_map_view(self.session)]
                    &&& o.mov_flags is None
                    &&& o.video_codec is None
                    &&& o.crf is None
                    &&& o.video_bitrate is None
                    &&& o.audio_bitrate == options.audio_bitrate
                    &&& (options.audio_codec is None ==> o.audio_codec == Some(
                        AudioCodec::MP3,
                    ))
                    &&& (options.audio_codec matches Some(s) ==> (o.audio_codec matches Some(c)
                        && (c == AudioCodec::audio_codec_of(s@) || (c matches
                    AudioCodec::Custom(cc) && cc@ == s@))))
                })
            },
    {
        if let Err(e) = self.session.validate() {
            return Err(e);
        }
        let is_image = match options.export_type {
            ExportType::Image => true,
            _ => false,
        };
        if is_image {
            return Err(CluvError::unsupported_format("image"));
        }
        let mut ff = FFmpeg::new();
        ff.set_ffmpeg_options(copy_engine_options(&self.ffmpeg_options));
        let seen = self.bind_inputs(&mut ff);
        proof {
            lemma_bindings_len(all_segments(self.session.tracks@), self.session.materials@);
        }

        let total = self.session.total_duration();
        let canvas0 = ff.add_filter_without_inputs(
            Filter::color(self.session.stage.width, self.session.stage.height, total as u64),
        );
        proof {
            let f = ff.filters@.last();
            assert(ff.filters@.len() == 1);
            assert(f.name@ == "color"@);
            assert(f.inputs@.len() == 0);
            assert(string_views(f.params@) == color_node(
                self.session.stage,
                max_track_duration(self.session.tracks@),
            ).1);
            assert(node_abs(f) == color_node(
                self.session.stage,
                max_track_duration(self.session.tracks@),
            ));
            assert(graph_abs(ff.filters@) =~~= seq![
                color_node(
                    self.session.stage,
                    max_track_duration(self.session.tracks@),
                ),
            ]);
        }

        let ghost lab_color = ff.filters@[0].label.0@;
        let ghost g_color = ff.filters@;
        let canvas = self.emit_video_tracks(&mut ff, &seen, canvas0);
        proof {
            assert(graph_abs(g_color).len() == g_color.len());
            assert(graph_abs(ff.filters@).len() == ff.filters@.len());
            assert(graph_abs(ff.filters@).len() == graph_abs(g_color).len()
                + tracks_video_nodes(self.session.tracks@).len());
            assert(ff.filters@.len() as int == 1 + video_node_count(self.session));
            assert(canvas.specifier_view() == canvas_map_view(self.session)) by {
                if tracks_video_nodes(self.session.tracks@).len() == 0 {
                    assert(canvas == canvas0);
                }
            }
        }
        let ghost g_video = ff.filters@;
        let audio_streams = self.emit_audio_tracks(&mut ff, &seen);
        proof {
            assert(graph_abs(g_video).len() == g_video.len());
            assert(graph_abs(ff.filters@).len() == ff.filters@.len());
            assert(graph_abs(ff.filters@).len() == graph_abs(g_video).len()
                + audio_chain_nodes(audio_segs(self.session.tracks@)).len());
            assert(ff.filters@.len() as int == 1 + video_node_count(self.session)
                + audio_node_count(self.session));
            assert(audio_streams@.len() == audio_segs(self.session.tracks@).len());
        }

        let ghost pre_mix = graph_abs(ff.filters@);
        let ghost pre_mix_len = ff.filters@.len() as int;
        let na = audio_streams.len();
        let final_audio: Stream = if na == 0 {
            let s = ff.add_filter_without_inputs(Filter::anullsrc(total as u64));
            proof {
                assert(graph_abs(ff.filters@) =~~= pre_mix + mix_nodes(
                    0,
                    max_track_duration(self.session.tracks@),
                ));
                assert(audio_chain_nodes(audio_segs(self.session.tracks@))
                    =~= Seq::<(Seq<char>, Seq<Seq<char>>, int)>::empty());
                assert(s.specifier_view() == audio_map_view(self.session));
            }
            s
        } else if na == 1 {
            proof {
                assert(graph_abs(ff.filters@) =~= pre_mix + mix_nodes(
                    1,
                    max_track_duration(self.session.tracks@),
                ));
            }
            let s = audio_streams[0].clone_stream();
            proof {
                assert(s.specifier_view() == audio_map_view(self.session));
            }
            s
        } else {
            proof {
                lemma_audio_segs_len(self.session.tracks@);
            }
            let mut iv: Vec<StreamInput> = Vec::new();
            let mut k: usize = 0;
            while k < na
                invariant
                    na == audio_streams@.len(),
                    0 <= k <= na,
                    iv@.len() == k,
                    forall|j: int|
                        0 <= j < k ==> (#[trigger] iv@[j]).stream_view().specifier_view()
                            == audio_streams@[j].specifier_view(),
                decreases na - k,
            {
                iv.push(StreamInput::Stream(audio_streams[k].clone_stream()));
                k = k + 1;
            }
            let s = ff.add_filter(Filter::amix(na as i32), iv);
            proof {
                assert(graph_abs(ff.filters@) =~~= pre_mix + mix_nodes(
                    na as int,
                    max_track_duration(self.session.tracks@),
                ));
                assert(s.specifier_view() == audio_map_view(self.session));
                assert(input_specifiers(ff.filters@.last().inputs@) =~= audio_out_specs(
                    self.session,
                ));
            }
            s
        };
        proof {
            assert(graph_abs(ff.filters@) =~= expected_filters(self.session));
            assert(final_audio.specifier_view() == audio_map_view(self.session));
            assert forall|i: int|
                0 <= i < ff.filters@.len() implies (#[trigger] ff.filters@[i]).label.0@
                == filter_label_view(i as nat) by {
                if i == 0 {
                    assert(ff.filters@[0].label.0@ == lab_color);
                }
            }
        }

        let mut output = Output::new(options.output_file.as_str());
        let is_video_export = match options.export_type {
            ExportType::Video => true,
            _ => false,
        };
        if is_video_export {
            output = output.map_stream(&canvas);
            output = output.map_stream(&final_audio);
            proof {
                assert(string_views(output.mappings@) =~= seq![
                    canvas_map_view(self.session),
                    audio_map_view(self.session),
                ]);
            }
            let vc = match &options.video_codec {
                Some(s) => VideoCodec::from_name(s.as_str()),
                None => VideoCodec::from_name("libx264"),
            };
            proof {
                if options.video_codec is None {
                    reveal_strlit("libx264");
                    assert(VideoCodec::video_codec_of("libx264"@) == VideoCodec::H264);
                }
            }
            output = output.video_codec(vc);
            let ac = match &options.audio_codec {
                Some(s) => AudioCodec::from_name(s.as_str()),
                None => AudioCodec::from_name("aac"),
            };
            proof {
                if options.audio_codec is None {
                    reveal_strlit("aac");
                    assert(AudioCodec::audio_codec_of("aac"@) == AudioCodec::AAC);
                }
            }
            output = output.audio_codec(ac);
            if let Some(quality) = options.quality {
                output = output.crf(quality);
            }
            if let Some(bitrate) = options.video_bitrate {
                output = output.video_bitrate(bitrate);
            }
            if let Some(bitrate) = options.audio_bitrate {
                output = output.audio_bitrate(bitrate);
            }
            output = output.mov_flags("faststart");
        } else {
            output = output.map_stream(&final_audio);
            proof {
                assert(string_views(output.mappings@) =~= seq![audio_map_view(self.session)]);
            }
            let ac = match &options.audio_codec {
                Some(s) => AudioCodec::from_name(s.as_str()),
                None => AudioCodec::from_name("mp3"),
            };
            proof {
                if options.audio_codec is None {
                    reveal_strlit("mp3");
                    reveal_strlit("aac");
                    reveal_strlit("libmp3lame");
                    assert("mp3"@ != "aac"@) by {
                        assert("mp3"@[0] != "aac"@[0]);
                    }
                    assert("mp3"@ != "libmp3lame"@) by {
                        assert("mp3"@.len() != "libmp3lame"@.len());
                    }
                    assert(AudioCodec::audio_codec_of("mp3"@) == AudioCodec::MP3);
                }
            }
            output = output.audio_codec(ac);
            if let Some(bitrate) = options.audio_bitrate {
                output = output.audio_bitrate(bitrate);
            }
        }
        output.options = copy_pairs(&options.custom_options.entries);
        output.path = options.output_file.clone();
        ff.add_output(output);
        Ok(ff)
    }
}

} // verus!

verus! {

/// The video material after enrichment from a probe report: absent fields
/// are filled from the first video stream and the container record;
/// present fields are never overwritten.
pub open spec fn enriched_video(v: VideoMaterial, info: MediaInfo) -> VideoMaterial {
    let vs = crate::ffprobe::first_of_kind(info.streams@, "video"@);
    let dimension = if v.dimension.width == 0 || v.dimension.height == 0 {
        match vs {
            Some(s) => match (s.width, s.height) {
                (Some(w), Some(h)) => Dimension { width: w, height: h },
                _ => v.dimension,
            },
            None => v.dimension,
        }
    } else {
        v.dimension
    };
    let fps = if v.fps is Some {
        v.fps
    } else {
        match vs {
            Some(s) => match s.r_frame_rate {
                Some(fr) => strutil::parsed_fraction_milli(fr@),
                None => None,
            },
            None => None,
        }
    };
    let codec = if v.codec is Some {
        v.codec
    } else {
        match vs {
            Some(s) => s.codec_name,
            None => None,
        }
    };
    let bitrate = if v.bitrate is Some {
        v.bitrate
    } else {
        match vs {
            Some(s) => match s.bit_rate {
                Some(br) => match strutil::parsed_u32(br@) {
                    Some(b) => Some((b / 1000) as u32),
                    None => None,
                },
                None => None,
            },
            None => None,
        }
    };
    let duration = if v.duration is Some {
        v.duration
    } else {
        match info.format {
            Some(f) => match f.duration {
                Some(d) => strutil::parsed_seconds_millis(d@),
                None => None,
            },
            None => None,
        }
    };
    VideoMaterial { dimension, duration, fps, codec, bitrate, ..v }
}

/// The audio material after enrichment from a probe report.
pub open spec fn enriched_audio(a: AudioMaterial, info: MediaInfo) -> AudioMaterial {
    let astream = crate::ffprobe::first_of_kind(info.streams@, "audio"@);
    let sample_rate = if a.sample_rate is Some {
        a.sample_rate
    } else {
        match astream {
            Some(s) => match s.sample_rate {
                Some(sr) => strutil::parsed_u32(sr@),
                None => None,
            },
            None => None,
        }
    };
    let channels = if a.channels is Some {
        a.channels
    } else {
        match astream {
            Some(s) => match s.channels {
                Some(c) => if c >= 0 {
                    Some(c as u32)
                } else {
                    None
                },
                None => None,
            },
            None => None,
        }
    };
    let codec = if a.codec is Some {
        a.codec
    } else {
        match astream {
            Some(s) => s.codec_name,
            None => None,
        }
    };
    let bitrate = if a.bitrate is Some {
        a.bitrate
    } else {
        match astream {
            Some(s) => match s.bit_rate {
                Some(br) => match strutil::parsed_u32(br@) {
                    Some(b) => Some((b / 1000) as u32),
                    None => None,
                },
                None => None,
            },
            None => None,
        }
    };
    let duration = if a.duration is Some {
        a.duration
    } else {
        match info.format {
            Some(f) => match f.duration {
                Some(d) => strutil::parsed_seconds_millis(d@),
                None => None,
            },
            None => None,
        }
    };
    AudioMaterial { duration, sample_rate, channels, codec, bitrate, ..a }
}

/// The image material after enrichment from a probe report; images are
/// reported as video streams.
pub open spec fn enriched_image(i: ImageMaterial, info: MediaInfo) -> ImageMaterial {
    let vs = crate::ffprobe::first_of_kind(info.streams@, "video"@);
    let dimension = if i.dimension.width == 0 || i.dimension.height == 0 {
        match vs {
            Some(s) => match (s.width, s.height) {
                (Some(w), Some(h)) => Dimension { width: w, height: h },
                _ => i.dimension,
            },
            None => i.dimension,
        }
    } else {
        i.dimension
    };
    let format = if i.format is Some {
        i.format
    } else {
        match vs {
            Some(s) => s.codec_name,
            None => None,
        }
    };
    ImageMaterial { dimension, format, ..i }
}

/// The material after enrichment, by kind.
pub open spec fn enriched_material(m: Material, info: MediaInfo) -> Material {
    match m {
        Material::Video(v) => Material::Video(enriched_video(v, info)),
        Material::Audio(a) => Material::Audio(enriched_audio(a, info)),
        Material::Image(i) => Material::Image(enriched_image(i, info)),
    }
}

/// Copy an optional string value.
fn clone_opt(s: &Option<String>) -> (r: Option<String>)
    ensures
        r == *s,
{
    match s {
        Some(v) => Some(v.clone()),
        None => None,
    }
}

/// Enrich a video material from a probe report; see `enriched_video`.
pub fn apply_video_info(video: VideoMaterial, info: &MediaInfo) -> (r: VideoMaterial)
    ensures
        r == enriched_video(video, *info),
{
    let mut v = video;
    match info.first_video_stream() {
        Some(stream) => {
            if v.dimension.width == 0 || v.dimension.height == 0 {
                if let (Some(w), Some(h)) = (stream.width, stream.height) {
                    v.dimension = Dimension { width: w, height: h };
                }
            }
            if v.fps.is_none() {
                if let Some(fr) = &stream.r_frame_rate {
                    v.fps = strutil::parse_fraction_milli(fr.as_str());
                }
            }
            if v.codec.is_none() {
                v.codec = clone_opt(&stream.codec_name);
            }
            if v.bitrate.is_none() {
                if let Some(br) = &stream.bit_rate {
                    match strutil::parse_u32(br.as_str()) {
                        Some(b) => {
                            v.bitrate = Some(b / 1000);
                        },
                        None => {},
                    }
                }
            }
        },
        None => {},
    }
    if v.duration.is_none() {
        if let Some(format) = &info.format {
            if let Some(d) = &format.duration {
                v.duration = strutil::parse_seconds_millis(d.as_str());
            }
        }
    }
    v
}

/// Enrich an audio material from a probe report; see `enriched_audio`.
pub fn apply_audio_info(audio: AudioMaterial, info: &MediaInfo) -> (r: AudioMaterial)
    ensures
        r == enriched_audio(audio, *info),
{
    let mut a = audio;
    match info.first_audio_stream() {
        Some(stream) => {
            if a.sample_rate.is_none() {
                if let Some(sr) = &stream.sample_rate {
                    a.sample_rate = strutil::parse_u32(sr.as_str());
                }
            }
            if a.channels.is_none() {
                if let Some(c) = stream.channels {
                    if c >= 0 {
                        a.channels = Some(c as u32);
                    }
                }
            }
            if a.codec.is_none() {
                a.codec = clone_opt(&stream.codec_name);
            }
            if a.bitrate.is_none() {
                if let Some(br) = &stream.bit_rate {
                    match strutil::parse_u32(br.as_str()) {
                        Some(b) => {
                            a.bitrate = Some(b / 1000);
                        },
                        None => {},
                    }
                }
            }
        },
        None => {},
    }
    if a.duration.is_none() {
        if let Some(format) = &info.format {
            if let Some(d) = &format.duration {
                a.duration = strutil::parse_seconds_millis(d.as_str());
            }
        }
    }
    a
}

/// Enrich an image material from a probe report; see `enriched_image`.
pub fn apply_image_info(image: ImageMaterial, info: &MediaInfo) -> (r: ImageMaterial)
    ensures
        r == enriched_image(image, *info),
{
    let mut i = image;
    match info.first_video_stream() {
        Some(stream) => {
            if i.dimension.width == 0 || i.dimension.height == 0 {
                if let (Some(w), Some(h)) = (stream.width, stream.height) {
                    i.dimension = Dimension { width: w, height: h };
                }
            }
            if i.format.is_none() {
                i.format = clone_opt(&stream.codec_name);
            }
        },
        None => {},
    }
    i
}

impl Editor {
    /// Enrich one material of the session from a probe report: absent
    /// fields are filled, present fields are never overwritten.
    pub fn apply_media_info(&mut self, index: usize, info: &MediaInfo)
        requires
            index < old(self).session.materials@.len(),
        ensures
            final(self).ffmpeg_options == old(self).ffmpeg_options,
            final(self).ffprobe_options == old(self).ffprobe_options,
            final(self).session.stage == old(self).session.stage,
            final(self).session.tracks == old(self).session.tracks,
            final(self).session.materials@ == old(self).session.materials@.update(
                index as int,
                enriched_material(old(self).session.materials@[index as int], *info),
            ),
    {
        let m = self.session.materials.remove(index);
        let enriched = match m {
            Material::Video(v) => Material::Video(apply_video_info(v, info)),
            Material::Audio(a) => Material::Audio(apply_audio_info(a, info)),
            Material::Image(i) => Material::Image(apply_image_info(i, info)),
        };
        self.session.materials.insert(index, enriched);
        proof {
            assert(final(self).session.materials@ =~= old(self).session.materials@.update(
                index as int,
                enriched_material(old(self).session.materials@[index as int], *info),
            ));
        }
    }
}

} // verus!
