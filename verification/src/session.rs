//! The edit session: stage, materials and tracks, with cross-entity
//! validation.

use vstd::prelude::*;

use crate::error::CluvError;
use crate::material::Material;
use crate::segment::Segment;
use crate::stage::Stage;
use crate::track::{max_target_end, Track, TrackType};

verus! {

/// The full composition state.
#[derive(Debug, Clone, PartialEq, Eq)]
pub struct EditSession {
    /// Canvas configuration.
    pub stage: Stage,
    /// Available materials.
    pub materials: Vec<Material>,
    /// Composition tracks, in stacking order.
    pub tracks: Vec<Track>,
}

/// Whether some material in the sequence has the given identifier.
pub open spec fn resolves(materials: Seq<Material>, id: Seq<char>) -> bool {
    exists|i: int| 0 <= i < materials.len() && (#[trigger] materials[i]).id_view() == id
}

/// The greatest track duration over a sequence of tracks, or 0 when there
/// are none.
pub open spec fn max_track_duration(tracks: Seq<Track>) -> int
    decreases tracks.len(),
{
    if tracks.len() == 0 {
        0
    } else {
        let rest = max_track_duration(tracks.drop_last());
        let d = tracks.last().duration_view();
        if d > rest {
            d
        } else {
            rest
        }
    }
}

/// The tracks of the given kind, in stored order.
pub open spec fn tracks_of_type(tracks: Seq<Track>, kind: TrackType) -> Seq<Track>
    decreases tracks.len(),
{
    if tracks.len() == 0 {
        Seq::empty()
    } else {
        let rest = tracks_of_type(tracks.drop_last(), kind);
        if tracks.last().track_type == kind {
            rest.push(tracks.last())
        } else {
            rest
        }
    }
}

/// The track values behind a sequence of references.
pub open spec fn deref_tracks(rs: Seq<&Track>) -> Seq<Track> {
    rs.map_values(|t: &Track| *t)
}

impl EditSession {
    /// Every window of every segment stays within the millisecond clock.
    pub open spec fn wf(self) -> bool {
        forall|i: int| 0 <= i < self.tracks@.len() ==> (#[trigger] self.tracks@[i]).wf()
    }

    /// The track attributes checked before any segment: identifier and
    /// ranges.
    pub open spec fn track_fields_ok(t: Track) -> bool {
        t.id@.len() > 0 && t.volume <= 1000 && t.opacity <= 1000
    }

    /// The message reported for a track whose attributes are out of order.
    pub open spec fn track_fields_error_view(t: Track) -> Seq<char> {
        if t.id@.len() == 0 {
            "Track ID cannot be empty"@
        } else if t.volume > 1000 {
            "Volume must be between 0.0 and 1.0"@
        } else {
            "Opacity must be between 0.0 and 1.0"@
        }
    }

    /// The message reported for an unresolved material reference.
    pub open spec fn unresolved_error_view(s: Segment) -> Seq<char> {
        "Material '"@ + s.material_id@ + "' not found"@
    }

    /// All materials pass their own validation.
    pub open spec fn materials_ok(self) -> bool {
        forall|i: int| 0 <= i < self.materials@.len() ==> (#[trigger] self.materials@[i]).valid_spec()
    }

    /// All tracks have valid attributes.
    pub open spec fn track_fields_all_ok(self) -> bool {
        forall|i: int|
            0 <= i < self.tracks@.len() ==> EditSession::track_fields_ok(
                #[trigger] self.tracks@[i],
            )
    }

    /// All segments of all tracks pass their own validation.
    pub open spec fn segments_ok(self) -> bool {
        forall|t: int, k: int|
            0 <= t < self.tracks@.len() && 0 <= k < (#[trigger] self.tracks@[t]).segments@.len()
                ==> (#[trigger] self.tracks@[t].segments@[k]).valid_spec()
    }

    /// Every segment's material reference resolves.
    pub open spec fn refs_ok(self) -> bool {
        forall|t: int, k: int|
            0 <= t < self.tracks@.len() && 0 <= k < (#[trigger] self.tracks@[t]).segments@.len()
                ==> resolves(
                self.materials@,
                (#[trigger] self.tracks@[t].segments@[k]).material_id@,
            )
    }

    /// A valid session: stage, materials, track attributes, segments and
    /// references all in order.
    pub open spec fn valid_spec(self) -> bool {
        &&& self.stage.valid_spec()
        &&& self.materials_ok()
        &&& self.track_fields_all_ok()
        &&& self.segments_ok()
        &&& self.refs_ok()
    }

    /// Create a new session on the given stage.
    pub fn new(stage: Stage) -> (r: EditSession)
        ensures
            r.stage == stage,
            r.materials@.len() == 0,
            r.tracks@.len() == 0,
    {
        EditSession { stage, materials: Vec::new(), tracks: Vec::new() }
    }

    /// Add a material.
    pub fn add_material(&mut self, material: Material)
        ensures
            *final(self) == (EditSession { materials: final(self).materials, ..*old(self) }),
            final(self).materials@ == old(self).materials@.push(material),
    {
        self.materials.push(material);
    }

    /// Add a track.
    pub fn add_track(&mut self, track: Track)
        ensures
            *final(self) == (EditSession { tracks: final(self).tracks, ..*old(self) }),
            final(self).tracks@ == old(self).tracks@.push(track),
    {
        self.tracks.push(track);
    }

    /// Find the first material with the given identifier.
    pub fn get_material(&self, id: &str) -> (r: Option<&Material>)
        ensures
            r is Some <==> resolves(self.materials@, id@),
            r matches Some(m) ==> exists|i: int|
                {
                    &&& 0 <= i < self.materials@.len()
                    &&& (#[trigger] self.materials@[i]).id_view() == id@
                    &&& (forall|j: int| 0 <= j < i ==> self.materials@[j].id_view() != id@)
                    &&& *m == self.materials@[i]
                },
    {
        let n = self.materials.len();
        let mut i: usize = 0;
        while i < n
            invariant
                n == self.materials@.len(),
                0 <= i <= n,
                forall|j: int| 0 <= j < i ==> (#[trigger] self.materials@[j]).id_view() != id@,
            decreases n - i,
        {
            if crate::strutil::str_eq(self.materials[i].id(), id) {
                return Some(&self.materials[i]);
            }
            i = i + 1;
        }
        None
    }

    /// Find the first track with the given identifier.
    pub fn get_track(&self, id: &str) -> (r: Option<&Track>)
        ensures
            r is Some <==> exists|i: int|
                0 <= i < self.tracks@.len() && (#[trigger] self.tracks@[i]).id@ == id@,
            r matches Some(t) ==> exists|i: int|
                {
                    &&& 0 <= i < self.tracks@.len()
                    &&& (#[trigger] self.tracks@[i]).id@ == id@
                    &&& (forall|j: int| 0 <= j < i ==> self.tracks@[j].id@ != id@)
                    &&& *t == self.tracks@[i]
                },
    {
        let n = self.tracks.len();
        let mut i: usize = 0;
        while i < n
            invariant
                n == self.tracks@.len(),
                0 <= i <= n,
                forall|j: int| 0 <= j < i ==> (#[trigger] self.tracks@[j]).id@ != id@,
            decreases n - i,
        {
            if crate::strutil::str_eq(self.tracks[i].id.as_str(), id) {
                return Some(&self.tracks[i]);
            }
            i = i + 1;
        }
        None
    }

    /// Append a segment to the first track with the given identifier.
    pub fn add_segment_to_track(&mut self, track_id: &str, segment: Segment) -> (r: Result<
        (),
        CluvError,
    >)
        ensures
            r is Ok <==> exists|i: int|
                0 <= i < old(self).tracks@.len() && (#[trigger] old(self).tracks@[i]).id@
                    == track_id@,
            r is Err ==> *final(self) == *old(self),
            r matches Err(e) ==> e matches CluvError::InvalidParams(s) && s@ == "Track '"@
                + track_id@ + "' not found"@,
            r is Ok ==> final(self).stage == old(self).stage && final(self).materials
                == old(self).materials && exists|i: int|
                {
                    &&& 0 <= i < old(self).tracks@.len()
                    &&& (#[trigger] old(self).tracks@[i]).id@ == track_id@
                    &&& (forall|j: int| 0 <= j < i ==> old(self).tracks@[j].id@ != track_id@)
                    &&& final(self).tracks@.len() == old(self).tracks@.len()
                    &&& (forall|j: int|
                        0 <= j < old(self).tracks@.len() && j != i
                            ==> final(self).tracks@[j] == old(self).tracks@[j])
                    &&& final(self).tracks@[i] == (Track {
                        segments: final(self).tracks@[i].segments,
                        ..old(self).tracks@[i]
                    })
                    &&& final(self).tracks@[i].segments@ == old(self).tracks@[i].segments@.push(
                        segment,
                    )
                },
    {
        let n = self.tracks.len();
        let mut i: usize = 0;
        let mut found: bool = false;
        while i < n && !found
            invariant
                *self == *old(self),
                n == self.tracks@.len(),
                0 <= i <= n,
                forall|j: int| 0 <= j < i ==> (#[trigger] self.tracks@[j]).id@ != track_id@,
                found ==> i < n && self.tracks@[i as int].id@ == track_id@,
            decreases n - i, (if found {
                0int
            } else {
                1int
            }),
        {
            if crate::strutil::str_eq(self.tracks[i].id.as_str(), track_id) {
                found = true;
            } else {
                i = i + 1;
            }
        }
        if found {
            let ghost pre = self.tracks@;
            let mut t = self.tracks.remove(i);
            t.add_segment(segment);
            self.tracks.insert(i, t);
            proof {
                assert(final(self).tracks@ =~= pre.update(
                    i as int,
                    final(self).tracks@[i as int],
                ));
            }
            Ok(())
        } else {
            let mut msg = String::from_str("Track '");
            msg.append(track_id);
            msg.append("' not found");
            proof {
                assert(msg@ =~= "Track '"@ + track_id@ + "' not found"@);
            }
            Err(CluvError::InvalidParams(msg))
        }
    }

    /// The session duration: the greatest track duration.
    pub fn total_duration(&self) -> (r: u32)
        requires
            self.wf(),
        ensures
            r as int == max_track_duration(self.tracks@),
    {
        let n = self.tracks.len();
        let mut best: u32 = 0;
        let mut i: usize = 0;
        while i < n
            invariant
                self.wf(),
                n == self.tracks@.len(),
                0 <= i <= n,
                best as int == max_track_duration(self.tracks@.subrange(0, i as int)),
            decreases n - i,
        {
            proof {
                let t = self.tracks@.subrange(0, i + 1);
                assert(t.drop_last() =~= self.tracks@.subrange(0, i as int));
                assert(t.last() == self.tracks@[i as int]);
            }
            let d = self.tracks[i].duration();
            if d > best {
                best = d;
            }
            i = i + 1;
        }
        assert(self.tracks@.subrange(0, n as int) =~= self.tracks@);
        best
    }

    /// The video tracks, in stored order.
    pub fn video_tracks(&self) -> (r: Vec<&Track>)
        ensures
            deref_tracks(r@) == tracks_of_type(self.tracks@, TrackType::Video),
    {
        self.tracks_by_type(TrackType::Video)
    }

    /// The audio tracks, in stored order.
    pub fn audio_tracks(&self) -> (r: Vec<&Track>)
        ensures
            deref_tracks(r@) == tracks_of_type(self.tracks@, TrackType::Audio),
    {
        self.tracks_by_type(TrackType::Audio)
    }

    /// The tracks of one kind, in stored order.
    fn tracks_by_type(&self, kind: TrackType) -> (r: Vec<&Track>)
        ensures
            deref_tracks(r@) == tracks_of_type(self.tracks@, kind),
    {
        let n = self.tracks.len();
        let mut r: Vec<&Track> = Vec::new();
        let mut i: usize = 0;
        while i < n
            invariant
                n == self.tracks@.len(),
                0 <= i <= n,
                deref_tracks(r@) == tracks_of_type(self.tracks@.subrange(0, i as int), kind),
            decreases n - i,
        {
            proof {
                let t = self.tracks@.subrange(0, i + 1);
                assert(t.drop_last() =~= self.tracks@.subrange(0, i as int));
                assert(t.last() == self.tracks@[i as int]);
            }
            let is_kind = match (self.tracks[i].track_type, kind) {
                (TrackType::Video, TrackType::Video) => true,
                (TrackType::Audio, TrackType::Audio) => true,
                (TrackType::Image, TrackType::Image) => true,
                (TrackType::Text, TrackType::Text) => true,
                (TrackType::Subtitle, TrackType::Subtitle) => true,
                _ => false,
            };
            if is_kind {
                r.push(&self.tracks[i]);
                assert(deref_tracks(r@) =~= tracks_of_type(
                    self.tracks@.subrange(0, i + 1),
                    kind,
                ));
            } else {
                assert(deref_tracks(r@) =~= tracks_of_type(
                    self.tracks@.subrange(0, i + 1),
                    kind,
                ));
            }
            i = i + 1;
        }
        assert(self.tracks@.subrange(0, n as int) =~= self.tracks@);
        r
    }

    /// Check the whole session, in a fixed order: the stage, every
    /// material, every track's attributes, every segment, and finally every
    /// segment's material reference. The first violation is reported.
    pub fn validate(&self) -> (r: Result<(), CluvError>)
        ensures
            r is Ok <==> self.valid_spec(),
            !self.stage.valid_spec() ==> (r matches Err(e) && e matches CluvError::InvalidParams(
                s,
            ) && s@ == (if self.stage.width <= 0 {
                "Stage width must be positive"@
            } else {
                "Stage height must be positive"@
            })),
            self.stage.valid_spec() && !self.materials_ok() ==> (r matches Err(e) && e matches
                CluvError::InvalidParams(s) && exists|k: int|
                {
                    &&& 0 <= k < self.materials@.len()
                    &&& !(#[trigger] self.materials@[k]).valid_spec()
                    &&& (forall|j: int| 0 <= j < k ==> self.materials@[j].valid_spec())
                    &&& s@ == self.materials@[k].first_error_view()
                }),
            self.stage.valid_spec() && self.materials_ok() && !self.track_fields_all_ok() ==> (
            r matches Err(e) && e matches CluvError::InvalidParams(s) && exists|k: int|
                {
                    &&& 0 <= k < self.tracks@.len()
                    &&& !EditSession::track_fields_ok(#[trigger] self.tracks@[k])
                    &&& (forall|j: int|
                        0 <= j < k ==> EditSession::track_fields_ok(self.tracks@[j]))
                    &&& s@ == EditSession::track_fields_error_view(self.tracks@[k])
                }),
            self.stage.valid_spec() && self.materials_ok() && self.track_fields_all_ok()
                && !self.segments_ok() ==> (r matches Err(e) && e matches CluvError::InvalidParams(
                s,
            ) && exists|t: int, k: int|
                {
                    &&& 0 <= t < self.tracks@.len()
                    &&& 0 <= k < self.tracks@[t].segments@.len()
                    &&& !(#[trigger] self.tracks@[t].segments@[k]).valid_spec()
                    &&& s@ == self.tracks@[t].segment_error_view(k)
                }),
            self.stage.valid_spec() && self.materials_ok() && self.track_fields_all_ok()
                && self.segments_ok() && !self.refs_ok() ==> (r matches Err(e) && e matches
                CluvError::InvalidParams(s) && exists|t: int, k: int|
                {
                    &&& 0 <= t < self.tracks@.len()
                    &&& 0 <= k < self.tracks@[t].segments@.len()
                    &&& !resolves(
                        self.materials@,
                        (#[trigger] self.tracks@[t].segments@[k]).material_id@,
                    )
                    &&& s@ == EditSession::unresolved_error_view(self.tracks@[t].segments@[k])
                }),
    {
        if let Err(e) = self.stage.validate() {
            return Err(e);
        }
        let nm = self.materials.len();
        let mut i: usize = 0;
        while i < nm
            invariant
                nm == self.materials@.len(),
                0 <= i <= nm,
                self.stage.valid_spec(),
                forall|j: int| 0 <= j < i ==> (#[trigger] self.materials@[j]).valid_spec(),
            decreases nm - i,
        {
            if let Err(e) = self.materials[i].validate() {
                return Err(e);
            }
            i = i + 1;
        }
        let nt = self.tracks.len();
        let mut t: usize = 0;
        while t < nt
            invariant
                nt == self.tracks@.len(),
                0 <= t <= nt,
                self.stage.valid_spec(),
                self.materials_ok(),
                forall|j: int|
                    0 <= j < t ==> EditSession::track_fields_ok(#[trigger] self.tracks@[j]),
            decreases nt - t,
        {
            let track = &self.tracks[t];
            if track.id.as_str().is_empty() {
                return Err(CluvError::invalid_params("Track ID cannot be empty"));
            }
            if track.volume > 1000 {
                return Err(CluvError::invalid_params("Volume must be between 0.0 and 1.0"));
            }
            if track.opacity > 1000 {
                return Err(CluvError::invalid_params("Opacity must be between 0.0 and 1.0"));
            }
            t = t + 1;
        }
        let mut t: usize = 0;
        while t < nt
            invariant
                nt == self.tracks@.len(),
                0 <= t <= nt,
                self.stage.valid_spec(),
                self.materials_ok(),
                self.track_fields_all_ok(),
                forall|ti: int, k: int|
                    0 <= ti < t && 0 <= k < (#[trigger] self.tracks@[ti]).segments@.len() ==> (
                    #[trigger] self.tracks@[ti].segments@[k]).valid_spec(),
            decreases nt - t,
        {
            let track = &self.tracks[t];
            let ns = track.segments.len();
            let mut k: usize = 0;
            while k < ns
                invariant
                    nt == self.tracks@.len(),
                    0 <= t < nt,
                    self.stage.valid_spec(),
                    self.materials_ok(),
                    self.track_fields_all_ok(),
                    forall|ti: int, kk: int|
                        0 <= ti < t && 0 <= kk < (#[trigger] self.tracks@[ti]).segments@.len()
                            ==> (#[trigger] self.tracks@[ti].segments@[kk]).valid_spec(),
                    track == &self.tracks@[t as int],
                    ns == track.segments@.len(),
                    0 <= k <= ns,
                    forall|j: int| 0 <= j < k ==> (#[trigger] track.segments@[j]).valid_spec(),
                decreases ns - k,
            {
                let res = track.segments[k].validate();
                if let Err(e) = res {
                    let mut msg = String::from_str("Segment ");
                    let num = crate::strutil::u64_to_string(k as u64);
                    msg.append(num.as_str());
                    msg.append(" validation failed: ");
                    let disp = e.to_display_string();
                    msg.append(disp.as_str());
                    proof {
                        assert(msg@ =~= self.tracks@[t as int].segment_error_view(k as int));
                    }
                    return Err(CluvError::InvalidParams(msg));
                }
                k = k + 1;
            }
            t = t + 1;
        }
        let mut t: usize = 0;
        while t < nt
            invariant
                nt == self.tracks@.len(),
                0 <= t <= nt,
                self.stage.valid_spec(),
                self.materials_ok(),
                self.track_fields_all_ok(),
                self.segments_ok(),
                forall|ti: int, k: int|
                    0 <= ti < t && 0 <= k < (#[trigger] self.tracks@[ti]).segments@.len()
                        ==> resolves(
                        self.materials@,
                        (#[trigger] self.tracks@[ti].segments@[k]).material_id@,
                    ),
            decreases nt - t,
        {
            let track = &self.tracks[t];
            let ns = track.segments.len();
            let mut k: usize = 0;
            while k < ns
                invariant
                    nt == self.tracks@.len(),
                    0 <= t < nt,
                    self.stage.valid_spec(),
                    self.materials_ok(),
                    self.track_fields_all_ok(),
                    self.segments_ok(),
                    forall|ti: int, kk: int|
                        0 <= ti < t && 0 <= kk < (#[trigger] self.tracks@[ti]).segments@.len()
                            ==> resolves(
                            self.materials@,
                            (#[trigger] self.tracks@[ti].segments@[kk]).material_id@,
                        ),
                    track == &self.tracks@[t as int],
                    ns == track.segments@.len(),
                    0 <= k <= ns,
                    forall|j: int|
                        0 <= j < k ==> resolves(
                            self.materials@,
                            (#[trigger] track.segments@[j]).material_id@,
                        ),
                decreases ns - k,
            {
                let seg = &track.segments[k];
                if self.get_material(seg.material_id.as_str()).is_none() {
                    let mut msg = String::from_str("Material '");
                    msg.append(seg.material_id.as_str());
                    msg.append("' not found");
                    proof {
                        assert(msg@ =~= EditSession::unresolved_error_view(
                            self.tracks@[t as int].segments@[k as int],
                        ));
                    }
                    return Err(CluvError::InvalidParams(msg));
                }
                k = k + 1;
            }
            t = t + 1;
        }
        Ok(())
    }
}

impl Default for EditSession {
    /// The default session has a 1920x1080 stage and nothing on it.
    fn default() -> (r: EditSession)
        ensures
            r.stage == (Stage { width: 1920, height: 1080 }),
            r.materials@.len() == 0,
            r.tracks@.len() == 0,
    {
        EditSession { stage: Stage::hd1080(), materials: Vec::new(), tracks: Vec::new() }
    }
}

} // verus!
