//! Tracks: ordered, typed containers of segments.
//!
//! A track keeps its segments in insertion order; that order is the
//! authoritative tie-break for composition and is never changed implicitly.
//! Volume and opacity are stored in permille (0..=1000), so all playback
//! attributes stay integral.

use vstd::prelude::*;
use vstd::multiset::Multiset;
use vstd::seq_lib::group_to_multiset_ensures;

use crate::error::CluvError;
use crate::ident::fresh_id;
use crate::segment::{Segment, TimeRange};
use crate::strutil::dec_str;
use crate::strutil::u64_to_string;

verus! {

/// Track kind tag.
#[derive(Debug, Clone, Copy, PartialEq, Eq, Structural)]
pub enum TrackType {
    /// Video track.
    Video,
    /// Audio track.
    Audio,
    /// Image track.
    Image,
    /// Text track.
    Text,
    /// Subtitle track.
    Subtitle,
}

/// A timeline track with shared playback attributes.
#[derive(Debug, Clone, PartialEq, Eq)]
pub struct Track {
    /// Unique track identifier.
    pub id: String,
    /// Track kind.
    pub track_type: TrackType,
    /// Segments, in insertion order.
    pub segments: Vec<Segment>,
    /// Whether the track takes part in composition.
    pub enabled: bool,
    /// Whether an audio track is muted.
    pub muted: bool,
    /// Volume in permille (0..=1000), for audio tracks.
    pub volume: u32,
    /// Opacity in permille (0..=1000), for video tracks.
    pub opacity: u32,
    /// Blend mode, for video tracks.
    pub blend_mode: Option<String>,
}

impl TrackType {
    /// The lowercase tag of a track kind.
    pub open spec fn tag_view(&self) -> Seq<char> {
        match self {
            TrackType::Video => "video"@,
            TrackType::Audio => "audio"@,
            TrackType::Image => "image"@,
            TrackType::Text => "text"@,
            TrackType::Subtitle => "subtitle"@,
        }
    }

    /// The lowercase tag for this track kind.
    pub fn to_string(&self) -> (r: String)
        ensures
            r@ == self.tag_view(),
    {
        match self {
            TrackType::Video => String::from_str("video"),
            TrackType::Audio => String::from_str("audio"),
            TrackType::Image => String::from_str("image"),
            TrackType::Text => String::from_str("text"),
            TrackType::Subtitle => String::from_str("subtitle"),
        }
    }
}

impl Track {
    /// Every segment window stays within the millisecond clock.
    pub open spec fn wf(self) -> bool {
        forall|i: int| 0 <= i < self.segments@.len() ==> (#[trigger] self.segments@[i]).wf()
    }

    /// The track's own validity: a nonempty identifier, attributes in range,
    /// and every segment valid.
    pub open spec fn valid_spec(self) -> bool {
        &&& self.id@.len() > 0
        &&& self.volume <= 1000
        &&& self.opacity <= 1000
        &&& forall|i: int|
            0 <= i < self.segments@.len() ==> (#[trigger] self.segments@[i]).valid_spec()
    }

    /// The wrapped message reported for an invalid segment at index `k`.
    pub open spec fn segment_error_view(self, k: int) -> Seq<char> {
        "Segment "@ + dec_str(k as nat) + " validation failed: "@ + "Invalid parameters: "@
            + self.segments@[k].first_error_view()
    }

    /// Create a new track with default attributes.
    pub fn new(id: &str, track_type: TrackType) -> (r: Track)
        ensures
            r.id@ == id@,
            r.track_type == track_type,
            r.segments@.len() == 0,
            r.enabled,
            !r.muted,
            r.volume == 1000,
            r.opacity == 1000,
            r.blend_mode is None,
    {
        Track {
            id: String::from_str(id),
            track_type,
            segments: Vec::new(),
            enabled: true,
            muted: false,
            volume: 1000,
            opacity: 1000,
            blend_mode: None,
        }
    }

    /// The track identifier.
    pub fn id(&self) -> (r: &str)
        ensures
            r@ == self.id@,
    {
        self.id.as_str()
    }

    /// Create a video track with a fresh identifier.
    pub fn video() -> (r: Track)
        ensures
            r.id@.len() == 36,
            r.track_type == TrackType::Video,
            r.segments@.len() == 0,
            r.enabled && !r.muted && r.volume == 1000 && r.opacity == 1000 && r.blend_mode is None,
    {
        let id = fresh_id();
        Track {
            id,
            track_type: TrackType::Video,
            segments: Vec::new(),
            enabled: true,
            muted: false,
            volume: 1000,
            opacity: 1000,
            blend_mode: None,
        }
    }

    /// Create an audio track with a fresh identifier.
    pub fn audio() -> (r: Track)
        ensures
            r.id@.len() == 36,
            r.track_type == TrackType::Audio,
            r.segments@.len() == 0,
            r.enabled && !r.muted && r.volume == 1000 && r.opacity == 1000 && r.blend_mode is None,
    {
        let id = fresh_id();
        Track {
            id,
            track_type: TrackType::Audio,
            segments: Vec::new(),
            enabled: true,
            muted: false,
            volume: 1000,
            opacity: 1000,
            blend_mode: None,
        }
    }

    /// Create an image track with a fresh identifier.
    pub fn image() -> (r: Track)
        ensures
            r.id@.len() == 36,
            r.track_type == TrackType::Image,
            r.segments@.len() == 0,
            r.enabled && !r.muted && r.volume == 1000 && r.opacity == 1000 && r.blend_mode is None,
    {
        let id = fresh_id();
        Track {
            id,
            track_type: TrackType::Image,
            segments: Vec::new(),
            enabled: true,
            muted: false,
            volume: 1000,
            opacity: 1000,
            blend_mode: None,
        }
    }

    /// Create a text track with a fresh identifier.
    pub fn text() -> (r: Track)
        ensures
            r.id@.len() == 36,
            r.track_type == TrackType::Text,
            r.segments@.len() == 0,
            r.enabled && !r.muted && r.volume == 1000 && r.opacity == 1000 && r.blend_mode is None,
    {
        let id = fresh_id();
        Track {
            id,
            track_type: TrackType::Text,
            segments: Vec::new(),
            enabled: true,
            muted: false,
            volume: 1000,
            opacity: 1000,
            blend_mode: None,
        }
    }

    /// Create a subtitle track with a fresh identifier.
    pub fn subtitle() -> (r: Track)
        ensures
            r.id@.len() == 36,
            r.track_type == TrackType::Subtitle,
            r.segments@.len() == 0,
            r.enabled && !r.muted && r.volume == 1000 && r.opacity == 1000 && r.blend_mode is None,
    {
        let id = fresh_id();
        Track {
            id,
            track_type: TrackType::Subtitle,
            segments: Vec::new(),
            enabled: true,
            muted: false,
            volume: 1000,
            opacity: 1000,
            blend_mode: None,
        }
    }

    /// Append a segment.
    pub fn add_segment(&mut self, segment: Segment)
        ensures
            *final(self) == (Track { segments: final(self).segments, ..*old(self) }),
            final(self).segments@ == old(self).segments@.push(segment),
    {
        self.segments.push(segment);
    }

    /// Append several segments, in order.
    pub fn add_segments(&mut self, segments: Vec<Segment>)
        ensures
            *final(self) == (Track { segments: final(self).segments, ..*old(self) }),
            final(self).segments@ == old(self).segments@ + segments@,
    {
        let mut rest = segments;
        self.segments.append(&mut rest);
    }

    /// Remove the first segment with the given identifier; report whether
    /// one was found.
    pub fn remove_segment(&mut self, segment_id: &str) -> (r: bool)
        ensures
            *final(self) == (Track { segments: final(self).segments, ..*old(self) }),
            r <==> exists|i: int|
                0 <= i < old(self).segments@.len() && (#[trigger] old(self).segments@[i]).id@
                    == segment_id@,
            !r ==> final(self).segments@ == old(self).segments@,
            r ==> exists|i: int|
                {
                    &&& 0 <= i < old(self).segments@.len()
                    &&& (#[trigger] old(self).segments@[i]).id@ == segment_id@
                    &&& (forall|j: int| 0 <= j < i ==> old(self).segments@[j].id@ != segment_id@)
                    &&& final(self).segments@ == old(self).segments@.remove(i)
                },
    {
        let n = self.segments.len();
        let mut i: usize = 0;
        let mut found: bool = false;
        while i < n && !found
            invariant
                n == self.segments@.len(),
                0 <= i <= n,
                forall|j: int| 0 <= j < i ==> (#[trigger] self.segments@[j]).id@ != segment_id@,
                found ==> i < n && self.segments@[i as int].id@ == segment_id@,
            decreases n - i, (if found { 0int } else { 1int }),
        {
            if crate::strutil::str_eq(self.segments[i].id.as_str(), segment_id) {
                found = true;
            } else {
                i = i + 1;
            }
        }
        if found {
            self.segments.remove(i);
            true
        } else {
            false
        }
    }

    /// Find the first segment with the given identifier.
    pub fn get_segment(&self, segment_id: &str) -> (r: Option<&Segment>)
        ensures
            r is Some <==> exists|i: int|
                0 <= i < self.segments@.len() && (#[trigger] self.segments@[i]).id@ == segment_id@,
            r matches Some(seg) ==> exists|i: int|
                {
                    &&& 0 <= i < self.segments@.len()
                    &&& (#[trigger] self.segments@[i]).id@ == segment_id@
                    &&& (forall|j: int| 0 <= j < i ==> self.segments@[j].id@ != segment_id@)
                    &&& *seg == self.segments@[i]
                },
    {
        let n = self.segments.len();
        let mut i: usize = 0;
        while i < n
            invariant
                n == self.segments@.len(),
                0 <= i <= n,
                forall|j: int| 0 <= j < i ==> (#[trigger] self.segments@[j]).id@ != segment_id@,
            decreases n - i,
        {
            if crate::strutil::str_eq(self.segments[i].id.as_str(), segment_id) {
                return Some(&self.segments[i]);
            }
            i = i + 1;
        }
        None
    }

    /// Enable or disable the track.
    pub fn set_enabled(&mut self, enabled: bool)
        ensures
            *final(self) == (Track { enabled, ..*old(self) }),
    {
        self.enabled = enabled;
    }

    /// Mute or unmute the track.
    pub fn set_muted(&mut self, muted: bool)
        ensures
            *final(self) == (Track { muted, ..*old(self) }),
    {
        self.muted = muted;
    }

    /// Set the volume in permille, clamped to 0..=1000.
    pub fn set_volume(&mut self, volume: u32)
        ensures
            *final(self) == (Track {
                volume: (if volume > 1000 {
                    1000u32
                } else {
                    volume
                }),
                ..*old(self)
            }),
    {
        self.volume = if volume > 1000 {
            1000
        } else {
            volume
        };
    }

    /// Set the opacity in permille, clamped to 0..=1000.
    pub fn set_opacity(&mut self, opacity: u32)
        ensures
            *final(self) == (Track {
                opacity: (if opacity > 1000 {
                    1000u32
                } else {
                    opacity
                }),
                ..*old(self)
            }),
    {
        self.opacity = if opacity > 1000 {
            1000
        } else {
            opacity
        };
    }

    /// Set the blend mode.
    pub fn set_blend_mode(&mut self, blend_mode: &str)
        ensures
            *final(self) == (Track { blend_mode: final(self).blend_mode, ..*old(self) }),
            final(self).blend_mode matches Some(b) && b@ == blend_mode@,
    {
        self.blend_mode = Some(String::from_str(blend_mode));
    }

    /// Clear the blend mode.
    pub fn clear_blend_mode(&mut self)
        ensures
            *final(self) == (Track { blend_mode: None, ..*old(self) }),
    {
        self.blend_mode = None;
    }

    /// The track duration: the greatest segment end, or 0 for an empty
    /// track.
    pub open spec fn duration_view(self) -> int {
        max_target_end(self.segments@)
    }

    /// The track duration: the greatest segment end, or 0 for an empty
    /// track.
    pub fn duration(&self) -> (r: u32)
        requires
            self.wf(),
        ensures
            r as int == self.duration_view(),
            forall|i: int|
                0 <= i < self.segments@.len() ==> (#[trigger] self.segments@[i]).target_timerange.end_spec()
                    <= r as int,
            r == 0 || exists|i: int|
                0 <= i < self.segments@.len() && (#[trigger] self.segments@[i]).target_timerange.end_spec()
                    == r as int,
    {
        let n = self.segments.len();
        let mut best: u32 = 0;
        let mut i: usize = 0;
        while i < n
            invariant
                self.wf(),
                n == self.segments@.len(),
                0 <= i <= n,
                best as int == max_target_end(self.segments@.subrange(0, i as int)),
                forall|j: int|
                    0 <= j < i ==> (#[trigger] self.segments@[j]).target_timerange.end_spec()
                        <= best as int,
                best == 0 || exists|j: int|
                    0 <= j < i && (#[trigger] self.segments@[j]).target_timerange.end_spec()
                        == best as int,
            decreases n - i,
        {
            proof {
                let t = self.segments@.subrange(0, i + 1);
                assert(t.drop_last() =~= self.segments@.subrange(0, i as int));
                assert(t.last() == self.segments@[i as int]);
            }
            let tr = self.segments[i].target_timerange;
            let e = tr.start + tr.duration;
            if e > best {
                best = e;
            }
            i = i + 1;
        }
        assert(self.segments@.subrange(0, n as int) =~= self.segments@);
        best
    }

    /// The earliest segment start, or 0 for an empty track.
    pub fn start_time(&self) -> (r: u32)
        ensures
            self.segments@.len() == 0 ==> r == 0,
            self.segments@.len() > 0 ==> {
                &&& forall|i: int|
                    0 <= i < self.segments@.len() ==> r
                        <= (#[trigger] self.segments@[i]).target_timerange.start
                &&& exists|i: int|
                    0 <= i < self.segments@.len()
                        && (#[trigger] self.segments@[i]).target_timerange.start == r
            },
    {
        let n = self.segments.len();
        if n == 0 {
            return 0;
        }
        let mut best: u32 = self.segments[0].target_timerange.start;
        let mut i: usize = 1;
        while i < n
            invariant
                n == self.segments@.len(),
                1 <= i <= n,
                forall|j: int| 0 <= j < i ==> best <= (#[trigger] self.segments@[j]).target_timerange.start,
                exists|j: int|
                    0 <= j < i && (#[trigger] self.segments@[j]).target_timerange.start == best,
            decreases n - i,
        {
            let s = self.segments[i].target_timerange.start;
            if s < best {
                best = s;
            }
            i = i + 1;
        }
        best
    }

    /// Whether the track holds no segments.
    pub fn is_empty(&self) -> (r: bool)
        ensures
            r == (self.segments@.len() == 0),
    {
        self.segments.len() == 0
    }

    /// The number of segments.
    pub fn segment_count(&self) -> (r: usize)
        ensures
            r == self.segments@.len(),
    {
        self.segments.len()
    }

    /// Sort the segments by target start time.
    ///
    /// Equal starts keep their relative order; the result holds exactly the
    /// segments held before.
    pub fn sort_segments(&mut self)
        ensures
            *final(self) == (Track { segments: final(self).segments, ..*old(self) }),
            final(self).segments@.len() == old(self).segments@.len(),
            final(self).segments@.to_multiset() == old(self).segments@.to_multiset(),
            forall|a: int, b: int|
                0 <= a <= b < final(self).segments@.len()
                    ==> (#[trigger] final(self).segments@[a]).target_timerange.start <= (
                #[trigger] final(self).segments@[b]).target_timerange.start,
            exists|perm: Seq<int>|
                stable_sort_witness(old(self).segments@, final(self).segments@, perm),
    {
        broadcast use group_to_multiset_ensures;

        let ghost orig = self.segments@;
        let ghost mut rest_idx: Seq<int> = Seq::new(orig.len(), |i: int| i);
        let ghost mut out_idx: Seq<int> = Seq::empty();
        let mut out: Vec<Segment> = Vec::new();
        while self.segments.len() > 0
            invariant
                *self == (Track { segments: self.segments, ..*old(self) }),
                out@.to_multiset().add(self.segments@.to_multiset()) =~= orig.to_multiset(),
                out@.len() + self.segments@.len() == orig.len(),
                rest_idx.len() == self.segments@.len(),
                out_idx.len() == out@.len(),
                forall|k: int|
                    0 <= k < rest_idx.len() ==> 0 <= #[trigger] rest_idx[k] < orig.len(),
                forall|k: int|
                    0 <= k < out_idx.len() ==> 0 <= #[trigger] out_idx[k] < orig.len(),
                forall|k: int|
                    0 <= k < rest_idx.len() ==> self.segments@[k] == orig[#[trigger] rest_idx[k]],
                forall|k: int|
                    0 <= k < out_idx.len() ==> out@[k] == orig[#[trigger] out_idx[k]],
                forall|a: int, b: int|
                    0 <= a < b < rest_idx.len() ==> #[trigger] rest_idx[a] < #[trigger] rest_idx[b],
                forall|a: int, b: int|
                    0 <= a < b < out_idx.len() ==> #[trigger] out_idx[a] != #[trigger] out_idx[b],
                forall|a: int, b: int|
                    0 <= a < out_idx.len() && 0 <= b < rest_idx.len() ==> #[trigger] out_idx[a]
                        != #[trigger] rest_idx[b],
                forall|a: int, b: int|
                    0 <= a < b < out@.len() && (#[trigger] out@[a]).target_timerange.start == (
                    #[trigger] out@[b]).target_timerange.start ==> out_idx[a] < out_idx[b],
                forall|a: int, b: int|
                    0 <= a < out@.len() && 0 <= b < self.segments@.len() && (
                    #[trigger] out@[a]).target_timerange.start == (
                    #[trigger] self.segments@[b]).target_timerange.start ==> out_idx[a]
                        < rest_idx[b],
                forall|a: int, b: int|
                    0 <= a <= b < out@.len() ==> (#[trigger] out@[a]).target_timerange.start <= (
                    #[trigger] out@[b]).target_timerange.start,
                forall|a: int, b: int|
                    0 <= a < out@.len() && 0 <= b < self.segments@.len() ==> (
                    #[trigger] out@[a]).target_timerange.start <= (
                    #[trigger] self.segments@[b]).target_timerange.start,
            decreases self.segments@.len(),
        {
            let n = self.segments.len();
            let mut m: usize = 0;
            let mut j: usize = 1;
            while j < n
                invariant
                    n == self.segments@.len(),
                    0 <= m < j <= n,
                    forall|k: int|
                        0 <= k < j ==> self.segments@[m as int].target_timerange.start <= (
                        #[trigger] self.segments@[k]).target_timerange.start,
                    forall|k: int|
                        0 <= k < m ==> (#[trigger] self.segments@[k]).target_timerange.start
                            > self.segments@[m as int].target_timerange.start,
                decreases n - j,
            {
                if self.segments[j].target_timerange.start
                    < self.segments[m].target_timerange.start {
                    m = j;
                }
                j = j + 1;
            }
            let ghost pre_rest = self.segments@;
            let ghost pre_out = out@;
            let ghost pre_rest_idx = rest_idx;
            let ghost pre_out_idx = out_idx;
            let x = self.segments.remove(m);
            out.push(x);
            proof {
                out_idx = pre_out_idx.push(pre_rest_idx[m as int]);
                rest_idx = pre_rest_idx.remove(m as int);
            }
            proof {
                broadcast use vstd::multiset::group_multiset_axioms;

                vstd::seq_lib::to_multiset_remove::<Segment>(pre_rest, m as int);
                vstd::seq_lib::to_multiset_build::<Segment>(pre_out, x);
                vstd::seq_lib::to_multiset_contains::<Segment>(pre_rest, x);
                assert(pre_rest.contains(x)) by {
                    assert(pre_rest[m as int] == x);
                }
                assert(self.segments@ == pre_rest.remove(m as int));
                assert(self.segments@.to_multiset() =~= pre_rest.to_multiset().remove(x));
                assert(out@ == pre_out.push(x));
                assert(pre_out.push(x).to_multiset() =~= pre_out.to_multiset().insert(x));
                assert(out@.to_multiset() =~= pre_out.to_multiset().insert(x));
                assert(pre_rest.to_multiset().count(x) > 0);
                assert(out@.to_multiset().add(self.segments@.to_multiset())
                    =~= orig.to_multiset()) by {
                    assert forall|e: Segment|
                        out@.to_multiset().count(e) + self.segments@.to_multiset().count(e)
                            == orig.to_multiset().count(e) by {
                        assert(pre_out.to_multiset().count(e)
                            + pre_rest.to_multiset().count(e) == orig.to_multiset().count(e));
                    }
                }
                assert forall|a: int, b: int|
                    0 <= a <= b < out@.len() implies (#[trigger] out@[a]).target_timerange.start
                    <= (#[trigger] out@[b]).target_timerange.start by {
                    if b == out@.len() - 1 && a < b {
                        assert(out@[a] == pre_out[a]);
                        assert(out@[b] == x);
                    }
                }
                assert forall|a: int, b: int|
                    0 <= a < out@.len() && 0 <= b < self.segments@.len() implies (
                #[trigger] out@[a]).target_timerange.start <= (
                #[trigger] self.segments@[b]).target_timerange.start by {
                    let pre_b: int = if b < m as int {
                        b
                    } else {
                        b + 1
                    };
                    assert(self.segments@[b] == pre_rest[pre_b]);
                    if a == out@.len() - 1 {
                        assert(out@[a] == x);
                        assert(x.target_timerange.start <= pre_rest[pre_b].target_timerange.start);
                    } else {
                        assert(out@[a] == pre_out[a]);
                    }
                }
                // The extracted element is the first among equals, so the
                // recorded original indices keep the stable order.
                assert forall|a: int, b: int|
                    0 <= a < b < out@.len() && (#[trigger] out@[a]).target_timerange.start == (
                    #[trigger] out@[b]).target_timerange.start implies out_idx[a] < out_idx[b] by {
                    if b == out@.len() - 1 {
                        assert(out@[a] == pre_out[a]);
                        assert(out_idx[a] == pre_out_idx[a]);
                        assert(out_idx[b] == pre_rest_idx[m as int]);
                        assert(pre_out_idx[a] < pre_rest_idx[m as int]);
                    } else {
                        assert(out@[a] == pre_out[a] && out@[b] == pre_out[b]);
                        assert(out_idx[a] == pre_out_idx[a] && out_idx[b] == pre_out_idx[b]);
                    }
                }
                assert forall|a: int, b: int|
                    0 <= a < out@.len() && 0 <= b < self.segments@.len() && (
                    #[trigger] out@[a]).target_timerange.start == (
                    #[trigger] self.segments@[b]).target_timerange.start implies out_idx[a]
                    < rest_idx[b] by {
                    let pre_b: int = if b < m as int {
                        b
                    } else {
                        b + 1
                    };
                    assert(self.segments@[b] == pre_rest[pre_b]);
                    assert(rest_idx[b] == pre_rest_idx[pre_b]);
                    if a == out@.len() - 1 {
                        assert(out@[a] == x);
                        assert(out_idx[a] == pre_rest_idx[m as int]);
                        // An equal-start element cannot sit before the first
                        // minimum, so its original index is larger.
                        assert(pre_b != m as int);
                        if pre_b < m as int {
                            assert(pre_rest[pre_b].target_timerange.start
                                > pre_rest[m as int].target_timerange.start);
                        }
                        assert(pre_b > m as int);
                        assert(pre_rest_idx[m as int] < pre_rest_idx[pre_b]);
                    } else {
                        assert(out@[a] == pre_out[a]);
                        assert(out_idx[a] == pre_out_idx[a]);
                    }
                }
                assert forall|a: int, b: int|
                    0 <= a < b < rest_idx.len() implies #[trigger] rest_idx[a]
                    < #[trigger] rest_idx[b] by {
                    let pa: int = if a < m as int {
                        a
                    } else {
                        a + 1
                    };
                    let pb: int = if b < m as int {
                        b
                    } else {
                        b + 1
                    };
                    assert(rest_idx[a] == pre_rest_idx[pa] && rest_idx[b] == pre_rest_idx[pb]);
                }
            }
        }
        proof {
            assert(self.segments@.to_multiset() =~= Multiset::<Segment>::empty());
            assert(out@.to_multiset().add(Multiset::<Segment>::empty()) =~= out@.to_multiset());
        }
        self.segments = out;
        proof {
            assert(stable_sort_witness(orig, self.segments@, out_idx));
        }
    }

    /// Whether two segments of the track overlap on the timeline.
    ///
    /// Every pair is checked; the stored segment order is never changed.
    pub fn has_overlapping_segments(&self) -> (r: bool)
        ensures
            r == exists|a: int, b: int|
                0 <= a < b < self.segments@.len()
                    && (#[trigger] self.segments@[a]).target_timerange.overlaps_spec(
                (#[trigger] self.segments@[b]).target_timerange),
    {
        let n = self.segments.len();
        let mut i: usize = 0;
        while i < n
            invariant
                n == self.segments@.len(),
                0 <= i <= n,
                forall|a: int, b: int|
                    0 <= a < b < n && a < i ==> !(#[trigger] self.segments@[a]).target_timerange.overlaps_spec(
                    (#[trigger] self.segments@[b]).target_timerange),
            decreases n - i,
        {
            let mut j: usize = i + 1;
            while j < n
                invariant
                    n == self.segments@.len(),
                    0 <= i < j <= n,
                    forall|b: int|
                        i < b < j ==> !self.segments@[i as int].target_timerange.overlaps_spec(
                        (#[trigger] self.segments@[b]).target_timerange),
                decreases n - j,
            {
                let a = self.segments[i].target_timerange;
                let b = self.segments[j].target_timerange;
                if a.overlaps(&b) {
                    return true;
                }
                j = j + 1;
            }
            i = i + 1;
        }
        false
    }

    /// The segments whose target window contains the given instant, in
    /// stored order.
    pub fn segments_at_time(&self, time: u32) -> (r: Vec<&Segment>)
        ensures
            deref_segments(r@) == at_time_filter(self.segments@, time as int),
    {
        let n = self.segments.len();
        let mut r: Vec<&Segment> = Vec::new();
        let mut i: usize = 0;
        while i < n
            invariant
                n == self.segments@.len(),
                0 <= i <= n,
                deref_segments(r@) == at_time_filter(self.segments@.subrange(0, i as int), time as int),
            decreases n - i,
        {
            proof {
                let t = self.segments@.subrange(0, i + 1);
                assert(t.drop_last() =~= self.segments@.subrange(0, i as int));
                assert(t.last() == self.segments@[i as int]);
            }
            if self.segments[i].target_timerange.contains(time) {
                r.push(&self.segments[i]);
                assert(deref_segments(r@) =~= at_time_filter(
                    self.segments@.subrange(0, i + 1),
                    time as int,
                ));
            } else {
                assert(deref_segments(r@) =~= at_time_filter(
                    self.segments@.subrange(0, i + 1),
                    time as int,
                ));
            }
            i = i + 1;
        }
        assert(self.segments@.subrange(0, n as int) =~= self.segments@);
        r
    }

    /// The segments whose target window overlaps `[start, end)`, in stored
    /// order.
    pub fn segments_in_range(&self, start: u32, end: u32) -> (r: Vec<&Segment>)
        ensures
            deref_segments(r@) == in_range_filter(self.segments@, start as int, end as int),
    {
        let n = self.segments.len();
        let mut r: Vec<&Segment> = Vec::new();
        let mut i: usize = 0;
        while i < n
            invariant
                n == self.segments@.len(),
                0 <= i <= n,
                deref_segments(r@) == in_range_filter(
                    self.segments@.subrange(0, i as int),
                    start as int,
                    end as int,
                ),
            decreases n - i,
        {
            proof {
                let t = self.segments@.subrange(0, i + 1);
                assert(t.drop_last() =~= self.segments@.subrange(0, i as int));
                assert(t.last() == self.segments@[i as int]);
            }
            let tr = self.segments[i].target_timerange;
            let seg_end: u64 = tr.start as u64 + tr.duration as u64;
            if tr.start < end && seg_end > start as u64 {
                r.push(&self.segments[i]);
                assert(deref_segments(r@) =~= in_range_filter(
                    self.segments@.subrange(0, i + 1),
                    start as int,
                    end as int,
                ));
            } else {
                assert(deref_segments(r@) =~= in_range_filter(
                    self.segments@.subrange(0, i + 1),
                    start as int,
                    end as int,
                ));
            }
            i = i + 1;
        }
        assert(self.segments@.subrange(0, n as int) =~= self.segments@);
        r
    }

    /// Check the track: identifier, attribute ranges, then each segment in
    /// order.
    pub fn validate(&self) -> (r: Result<(), CluvError>)
        ensures
            r is Ok <==> self.valid_spec(),
            self.id@.len() == 0 ==> (r matches Err(e) && e matches CluvError::InvalidParams(s)
                && s@ == "Track ID cannot be empty"@),
            self.id@.len() > 0 && self.volume > 1000 ==> (r matches Err(e) && e matches
                CluvError::InvalidParams(s) && s@ == "Volume must be between 0.0 and 1.0"@),
            self.id@.len() > 0 && self.volume <= 1000 && self.opacity > 1000 ==> (r matches Err(
            e) && e matches CluvError::InvalidParams(s) && s@
                == "Opacity must be between 0.0 and 1.0"@),
            self.id@.len() > 0 && self.volume <= 1000 && self.opacity <= 1000 && r is Err ==> (
            r matches Err(e) && e matches CluvError::InvalidParams(s) && exists|k: int|
                {
                    &&& 0 <= k < self.segments@.len()
                    &&& !(#[trigger] self.segments@[k]).valid_spec()
                    &&& (forall|j: int| 0 <= j < k ==> self.segments@[j].valid_spec())
                    &&& s@ == self.segment_error_view(k)
                }),
    {
        if self.id.as_str().is_empty() {
            return Err(CluvError::invalid_params("Track ID cannot be empty"));
        }
        if self.volume > 1000 {
            return Err(CluvError::invalid_params("Volume must be between 0.0 and 1.0"));
        }
        if self.opacity > 1000 {
            return Err(CluvError::invalid_params("Opacity must be between 0.0 and 1.0"));
        }
        let n = self.segments.len();
        let mut i: usize = 0;
        while i < n
            invariant
                n == self.segments@.len(),
                0 <= i <= n,
                self.id@.len() > 0,
                self.volume <= 1000,
                self.opacity <= 1000,
                forall|j: int| 0 <= j < i ==> (#[trigger] self.segments@[j]).valid_spec(),
            decreases n - i,
        {
            let res = self.segments[i].validate();
            if let Err(e) = res {
                let mut msg = String::from_str("Segment ");
                let num = u64_to_string(i as u64);
                msg.append(num.as_str());
                msg.append(" validation failed: ");
                let disp = e.to_display_string();
                msg.append(disp.as_str());
                proof {
                    assert(msg@ =~= self.segment_error_view(i as int));
                }
                return Err(CluvError::InvalidParams(msg));
            }
            i = i + 1;
        }
        Ok(())
    }

    /// Whether the track kind carries a volume.
    pub fn supports_volume(&self) -> (r: bool)
        ensures
            r == (self.track_type == TrackType::Audio),
    {
        match self.track_type {
            TrackType::Audio => true,
            _ => false,
        }
    }

    /// Whether the track kind carries an opacity.
    pub fn supports_opacity(&self) -> (r: bool)
        ensures
            r == (self.track_type == TrackType::Video || self.track_type == TrackType::Image
                || self.track_type == TrackType::Text),
    {
        match self.track_type {
            TrackType::Video => true,
            TrackType::Image => true,
            TrackType::Text => true,
            _ => false,
        }
    }

    /// Whether the track kind carries a blend mode.
    pub fn supports_blend_mode(&self) -> (r: bool)
        ensures
            r == (self.track_type == TrackType::Video || self.track_type == TrackType::Image
                || self.track_type == TrackType::Text),
    {
        match self.track_type {
            TrackType::Video => true,
            TrackType::Image => true,
            TrackType::Text => true,
            _ => false,
        }
    }

    /// Copy the track under a new identifier.
    pub fn clone_with_id(&self, new_id: &str) -> (r: Track)
        ensures
            r.id@ == new_id@,
            r.track_type == self.track_type,
            r.segments@ == self.segments@,
            r.enabled == self.enabled,
            r.muted == self.muted,
            r.volume == self.volume,
            r.opacity == self.opacity,
            r.blend_mode == self.blend_mode,
    {
        let blend = match &self.blend_mode {
            Some(b) => Some(b.clone()),
            None => None,
        };
        Track {
            id: String::from_str(new_id),
            track_type: self.track_type,
            segments: copy_segments(&self.segments),
            enabled: self.enabled,
            muted: self.muted,
            volume: self.volume,
            opacity: self.opacity,
            blend_mode: blend,
        }
    }

    /// Remove all segments.
    pub fn clear_segments(&mut self)
        ensures
            *final(self) == (Track { segments: final(self).segments, ..*old(self) }),
            final(self).segments@.len() == 0,
    {
        self.segments.clear();
    }
}

/// `perm` witnesses that `sorted` is a stable permutation of `orig` by
/// target start: a bijective index map, order-preserving among segments
/// with equal starts.
pub open spec fn stable_sort_witness(orig: Seq<Segment>, sorted: Seq<Segment>, perm: Seq<int>) -> bool {
    &&& perm.len() == orig.len()
    &&& sorted.len() == orig.len()
    &&& (forall|i: int| 0 <= i < perm.len() ==> 0 <= #[trigger] perm[i] < perm.len())
    &&& (forall|a: int, b: int| 0 <= a < b < perm.len() ==> perm[a] != perm[b])
    &&& (forall|i: int| 0 <= i < perm.len() ==> sorted[i] == orig[#[trigger] perm[i]])
    &&& (forall|a: int, b: int|
        0 <= a < b < perm.len() && sorted[a].target_timerange.start
            == sorted[b].target_timerange.start ==> perm[a] < perm[b])
}

/// The greatest target end over a sequence of segments, or 0 when there are
/// none.
pub open spec fn max_target_end(segs: Seq<Segment>) -> int
    decreases segs.len(),
{
    if segs.len() == 0 {
        0
    } else {
        let rest = max_target_end(segs.drop_last());
        let e = segs.last().target_timerange.end_spec();
        if e > rest {
            e
        } else {
            rest
        }
    }
}

/// The segment values behind a sequence of references.
pub open spec fn deref_segments(rs: Seq<&Segment>) -> Seq<Segment> {
    rs.map_values(|s: &Segment| *s)
}

/// The subsequence of segments whose target window contains `time`, in
/// order.
pub open spec fn at_time_filter(segs: Seq<Segment>, time: int) -> Seq<Segment>
    decreases segs.len(),
{
    if segs.len() == 0 {
        Seq::empty()
    } else {
        let rest = at_time_filter(segs.drop_last(), time);
        if segs.last().target_timerange.contains_spec(time) {
            rest.push(segs.last())
        } else {
            rest
        }
    }
}

/// The subsequence of segments whose target window overlaps `[start, end)`,
/// in order.
pub open spec fn in_range_filter(segs: Seq<Segment>, start: int, end: int) -> Seq<Segment>
    decreases segs.len(),
{
    if segs.len() == 0 {
        Seq::empty()
    } else {
        let rest = in_range_filter(segs.drop_last(), start, end);
        if segs.last().target_timerange.start < end && segs.last().target_timerange.end_spec()
            > start {
            rest.push(segs.last())
        } else {
            rest
        }
    }
}

/// An element-wise copy of a segment vector.
fn copy_segments(v: &Vec<Segment>) -> (r: Vec<Segment>)
    ensures
        r@ == v@,
{
    let n = v.len();
    let mut r: Vec<Segment> = Vec::new();
    let mut i: usize = 0;
    while i < n
        invariant
            n == v@.len(),
            0 <= i <= n,
            r@ == v@.subrange(0, i as int),
        decreases n - i,
    {
        let s = &v[i];
        let copy = Segment {
            id: s.id.clone(),
            segment_type: s.segment_type,
            material_id: s.material_id.clone(),
            target_timerange: s.target_timerange,
            source_timerange: s.source_timerange,
            scale: s.scale,
            position: s.position,
        };
        r.push(copy);
        assert(r@ =~= v@.subrange(0, i + 1));
        i = i + 1;
    }
    assert(v@.subrange(0, n as int) =~= v@);
    r
}

} // verus!
