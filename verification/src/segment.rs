//! Timeline primitives and the segment algebra.
//!
//! A segment places a window of a material (the source range) onto a window
//! of the session timeline (the target range). Trimming and splitting keep
//! the two windows in proportion, with all arithmetic exact over integers:
//! the playback speed is the rational `source.duration / target.duration`.

use vstd::prelude::*;

use crate::error::CluvError;
use crate::ident::fresh_id;
use crate::material::Dimension;
use crate::numeric::{lemma_div_below, trunc_div};
use crate::numeric;
use crate::strutil::{dec_str, int_str, u32_to_string, i32_to_string};

verus! {

/// A half-open window `[start, start + duration)` in milliseconds.
#[derive(Debug, Clone, Copy, PartialEq, Eq, Structural)]
pub struct TimeRange {
    /// Start time in milliseconds.
    pub start: u32,
    /// Duration in milliseconds.
    pub duration: u32,
}

/// A pixel position on the stage; negative values place content off stage.
#[derive(Debug, Clone, Copy, PartialEq, Eq, Structural)]
pub struct Position {
    /// X coordinate in pixels.
    pub x: i32,
    /// Y coordinate in pixels.
    pub y: i32,
}

/// A pixel extent.
#[derive(Debug, Clone, Copy, PartialEq, Eq, Structural)]
pub struct Scale {
    /// Width in pixels.
    pub width: i32,
    /// Height in pixels.
    pub height: i32,
}

/// Segment kind tag; it must match the owning track's kind.
#[derive(Debug, Clone, Copy, PartialEq, Eq, Structural)]
pub enum SegmentType {
    /// Video segment.
    Video,
    /// Audio segment.
    Audio,
    /// Image segment.
    Image,
    /// Text segment.
    Text,
    /// Subtitle segment.
    Subtitle,
}

/// A clip of one material placed on a track.
#[derive(Debug, Clone, PartialEq, Eq)]
pub struct Segment {
    /// Unique segment identifier.
    pub id: String,
    /// Segment kind.
    pub segment_type: SegmentType,
    /// Identifier of the referenced material.
    pub material_id: String,
    /// Window on the session timeline.
    pub target_timerange: TimeRange,
    /// Window consumed from the source material.
    pub source_timerange: TimeRange,
    /// Visual size, when overridden.
    pub scale: Option<Dimension>,
    /// Stage position, when overridden.
    pub position: Option<Position>,
}

impl TimeRange {
    /// The end does not overflow the millisecond clock.
    pub open spec fn wf(self) -> bool {
        self.start + self.duration <= u32::MAX
    }

    /// The end of the window.
    pub open spec fn end_spec(self) -> int {
        self.start + self.duration
    }

    /// Whether an instant falls inside the half-open window.
    pub open spec fn contains_spec(self, t: int) -> bool {
        self.start <= t < self.end_spec()
    }

    /// Whether two windows share an instant.
    pub open spec fn overlaps_spec(self, other: TimeRange) -> bool {
        self.start < other.end_spec() && other.start < self.end_spec()
    }

    /// Create a new time range.
    pub fn new(start: u32, duration: u32) -> (r: TimeRange)
        ensures
            r == (TimeRange { start, duration }),
    {
        TimeRange { start, duration }
    }

    /// The end time in milliseconds.
    pub fn end(&self) -> (r: u32)
        requires
            self.wf(),
        ensures
            r as int == self.end_spec(),
    {
        self.start + self.duration
    }

    /// Whether the window contains the given time.
    pub fn contains(&self, time: u32) -> (r: bool)
        ensures
            r == self.contains_spec(time as int),
    {
        time >= self.start && time - self.start < self.duration
    }

    /// Whether this window overlaps another.
    pub fn overlaps(&self, other: &TimeRange) -> (r: bool)
        ensures
            r == self.overlaps_spec(*other),
    {
        ((self.start as u64) < other.start as u64 + other.duration as u64) && ((other.start
            as u64) < self.start as u64 + self.duration as u64)
    }

    /// The overlap of two windows, or `None` when they are disjoint.
    pub fn intersection(&self, other: &TimeRange) -> (r: Option<TimeRange>)
        ensures
            self.duration > 0 && other.duration > 0 ==> (r is Some <==> self.overlaps_spec(
                *other,
            )),
            r is Some <==> (if self.start >= other.start {
                self.start as int
            } else {
                other.start as int
            }) < (if self.end_spec() <= other.end_spec() {
                self.end_spec()
            } else {
                other.end_spec()
            }),
            r matches Some(t) ==> {
                &&& t.start == (if self.start >= other.start {
                    self.start
                } else {
                    other.start
                })
                &&& t.end_spec() == (if self.end_spec() <= other.end_spec() {
                    self.end_spec()
                } else {
                    other.end_spec()
                })
            },
    {
        let s: u32 = if self.start >= other.start {
            self.start
        } else {
            other.start
        };
        let self_end: u64 = self.start as u64 + self.duration as u64;
        let other_end: u64 = other.start as u64 + other.duration as u64;
        let e: u64 = if self_end <= other_end {
            self_end
        } else {
            other_end
        };
        if (s as u64) < e {
            Some(TimeRange { start: s, duration: (e - s as u64) as u32 })
        } else {
            None
        }
    }

    /// Whether the range has a positive duration.
    pub fn is_valid(&self) -> (r: bool)
        ensures
            r == (self.duration > 0),
    {
        self.duration > 0
    }

    /// Render as "STARTms-ENDms".
    pub fn to_string(&self) -> (r: String)
        requires
            self.wf(),
        ensures
            r@ == dec_str(self.start as nat) + "ms-"@ + dec_str((self.start + self.duration) as nat)
                + "ms"@,
    {
        let mut r = u32_to_string(self.start);
        r.append("ms-");
        let e = u32_to_string(self.start + self.duration);
        r.append(e.as_str());
        r.append("ms");
        r
    }
}

/// A window with a positive duration contains its start and not its end.
pub proof fn lemma_contains_bounds(tr: TimeRange)
    requires
        tr.duration > 0,
    ensures
        tr.contains_spec(tr.start as int),
        !tr.contains_spec(tr.start as int + tr.duration as int),
{
}

impl From<(u32, u32)> for TimeRange {
    /// Build a time range from a `(start, duration)` pair.
    fn from(tuple: (u32, u32)) -> (r: TimeRange) {
        TimeRange { start: tuple.0, duration: tuple.1 }
    }
}

impl vstd::std_specs::convert::FromSpecImpl<(u32, u32)> for TimeRange {
    open spec fn obeys_from_spec() -> bool {
        true
    }

    open spec fn from_spec(tuple: (u32, u32)) -> TimeRange {
        TimeRange { start: tuple.0, duration: tuple.1 }
    }
}

impl From<TimeRange> for (u32, u32) {
    /// Split a time range into a `(start, duration)` pair.
    fn from(range: TimeRange) -> (r: (u32, u32)) {
        (range.start, range.duration)
    }
}

impl vstd::std_specs::convert::FromSpecImpl<TimeRange> for (u32, u32) {
    open spec fn obeys_from_spec() -> bool {
        true
    }

    open spec fn from_spec(range: TimeRange) -> (u32, u32) {
        (range.start, range.duration)
    }
}

impl Position {
    /// Create a new position.
    pub fn new(x: i32, y: i32) -> (r: Position)
        ensures
            r == (Position { x, y }),
    {
        Position { x, y }
    }

    /// The origin position.
    pub fn origin() -> (r: Position)
        ensures
            r == (Position { x: 0, y: 0 }),
    {
        Position { x: 0, y: 0 }
    }

    /// The position that centers an item of the given size on a stage of the
    /// given size; divisions truncate toward zero.
    pub fn center(stage_width: i32, stage_height: i32, item_width: i32, item_height: i32) -> (r:
        Position)
        ensures
            r.x as int == trunc_div(stage_width - item_width, 2),
            r.y as int == trunc_div(stage_height - item_height, 2),
    {
        let dx: i64 = stage_width as i64 - item_width as i64;
        let dy: i64 = stage_height as i64 - item_height as i64;
        let hx = numeric::half_trunc(dx);
        let hy = numeric::half_trunc(dy);
        Position { x: hx as i32, y: hy as i32 }
    }

    /// Move the position by a delta.
    pub fn offset(&self, dx: i32, dy: i32) -> (r: Position)
        requires
            i32::MIN <= self.x + dx <= i32::MAX,
            i32::MIN <= self.y + dy <= i32::MAX,
        ensures
            r.x == self.x + dx,
            r.y == self.y + dy,
    {
        Position { x: self.x + dx, y: self.y + dy }
    }

    /// Whether the position lies inside `[0, width) x [0, height)`.
    pub fn within_bounds(&self, width: i32, height: i32) -> (r: bool)
        ensures
            r == (self.x >= 0 && self.y >= 0 && self.x < width && self.y < height),
    {
        self.x >= 0 && self.y >= 0 && self.x < width && self.y < height
    }

    /// Render as "(x, y)".
    pub fn to_string(&self) -> (r: String)
        ensures
            r@ == "("@ + int_str(self.x as int) + ", "@ + int_str(self.y as int) + ")"@,
    {
        let mut r = String::from_str("(");
        let xs = i32_to_string(self.x);
        r.append(xs.as_str());
        r.append(", ");
        let ys = i32_to_string(self.y);
        r.append(ys.as_str());
        r.append(")");
        r
    }
}

impl Default for Position {
    /// The default position is the origin.
    fn default() -> (r: Position)
        ensures
            r == (Position { x: 0, y: 0 }),
    {
        Position { x: 0, y: 0 }
    }
}

impl From<(i32, i32)> for Position {
    /// Build a position from an `(x, y)` pair.
    fn from(tuple: (i32, i32)) -> (r: Position) {
        Position { x: tuple.0, y: tuple.1 }
    }
}

impl vstd::std_specs::convert::FromSpecImpl<(i32, i32)> for Position {
    open spec fn obeys_from_spec() -> bool {
        true
    }

    open spec fn from_spec(tuple: (i32, i32)) -> Position {
        Position { x: tuple.0, y: tuple.1 }
    }
}

impl From<Position> for (i32, i32) {
    /// Split a position into an `(x, y)` pair.
    fn from(pos: Position) -> (r: (i32, i32)) {
        (pos.x, pos.y)
    }
}

impl vstd::std_specs::convert::FromSpecImpl<Position> for (i32, i32) {
    open spec fn obeys_from_spec() -> bool {
        true
    }

    open spec fn from_spec(pos: Position) -> (i32, i32) {
        (pos.x, pos.y)
    }
}

impl Scale {
    /// Create a new scale.
    pub fn new(width: i32, height: i32) -> (r: Scale)
        ensures
            r == (Scale { width, height }),
    {
        Scale { width, height }
    }

    /// Shrink to fit inside the given bounds, keeping the aspect ratio; a
    /// scale already inside the bounds is returned unchanged.
    pub fn fit_within(&self, max_width: i32, max_height: i32) -> (r: Scale)
        requires
            self.width > 0,
            self.height > 0,
            max_width >= 0,
            max_height >= 0,
        ensures
            max_width >= self.width && max_height >= self.height ==> r == *self,
            !(max_width >= self.width && max_height >= self.height) ==> 0 <= r.width <= max_width
                && 0 <= r.height <= max_height,
            !(max_width >= self.width && max_height >= self.height) && max_width as int
                * self.height as int <= max_height as int * self.width as int ==> r.width
                == max_width && r.height as int == crate::numeric::round_div(
                self.height as int * max_width as int,
                self.width as int,
            ),
            !(max_width >= self.width && max_height >= self.height) && max_width as int
                * self.height as int > max_height as int * self.width as int ==> r.height
                == max_height && r.width as int == crate::numeric::round_div(
                self.width as int * max_height as int,
                self.height as int,
            ),
    {
        let (w, h) = numeric::fit_dims(self.width, self.height, max_width, max_height);
        Scale { width: w, height: h }
    }

    /// Whether both sides are strictly positive.
    pub fn is_valid(&self) -> (r: bool)
        ensures
            r == (self.width > 0 && self.height > 0),
    {
        self.width > 0 && self.height > 0
    }

    /// Render as "WIDTHxHEIGHT".
    pub fn to_string(&self) -> (r: String)
        ensures
            r@ == int_str(self.width as int) + "x"@ + int_str(self.height as int),
    {
        let mut r = i32_to_string(self.width);
        r.append("x");
        let hs = i32_to_string(self.height);
        r.append(hs.as_str());
        r
    }
}

impl From<(i32, i32)> for Scale {
    /// Build a scale from a `(width, height)` pair.
    fn from(tuple: (i32, i32)) -> (r: Scale) {
        Scale { width: tuple.0, height: tuple.1 }
    }
}

impl vstd::std_specs::convert::FromSpecImpl<(i32, i32)> for Scale {
    open spec fn obeys_from_spec() -> bool {
        true
    }

    open spec fn from_spec(tuple: (i32, i32)) -> Scale {
        Scale { width: tuple.0, height: tuple.1 }
    }
}

impl From<Scale> for (i32, i32) {
    /// Split a scale into a `(width, height)` pair.
    fn from(scale: Scale) -> (r: (i32, i32)) {
        (scale.width, scale.height)
    }
}

impl vstd::std_specs::convert::FromSpecImpl<Scale> for (i32, i32) {
    open spec fn obeys_from_spec() -> bool {
        true
    }

    open spec fn from_spec(scale: Scale) -> (i32, i32) {
        (scale.width, scale.height)
    }
}

impl SegmentType {
    /// The lowercase tag of a segment kind.
    pub open spec fn tag_view(&self) -> Seq<char> {
        match self {
            SegmentType::Video => "video"@,
            SegmentType::Audio => "audio"@,
            SegmentType::Image => "image"@,
            SegmentType::Text => "text"@,
            SegmentType::Subtitle => "subtitle"@,
        }
    }

    /// The lowercase tag for this segment kind.
    pub fn to_string(&self) -> (r: String)
        ensures
            r@ == self.tag_view(),
    {
        match self {
            SegmentType::Video => String::from_str("video"),
            SegmentType::Audio => String::from_str("audio"),
            SegmentType::Image => String::from_str("image"),
            SegmentType::Text => String::from_str("text"),
            SegmentType::Subtitle => String::from_str("subtitle"),
        }
    }
}

impl Segment {
    /// Both windows stay within the millisecond clock.
    pub open spec fn wf(self) -> bool {
        self.target_timerange.wf() && self.source_timerange.wf()
    }

    /// The segment's own validity: nonempty identifiers, positive durations,
    /// and a positive scale when one is set.
    pub open spec fn valid_spec(self) -> bool {
        &&& self.id@.len() > 0
        &&& self.material_id@.len() > 0
        &&& self.target_timerange.duration > 0
        &&& self.source_timerange.duration > 0
        &&& (self.scale matches Some(sc) ==> sc.width > 0 && sc.height > 0)
    }

    /// The message of the first violation, checked in a fixed order.
    pub open spec fn first_error_view(self) -> Seq<char> {
        if self.id@.len() == 0 {
            "Segment ID cannot be empty"@
        } else if self.material_id@.len() == 0 {
            "Material ID cannot be empty"@
        } else if self.target_timerange.duration == 0 {
            "Target duration must be positive"@
        } else if self.source_timerange.duration == 0 {
            "Source duration must be positive"@
        } else {
            "Scale dimensions must be positive"@
        }
    }

    /// How many source milliseconds a trim of `amount` target milliseconds
    /// consumes: `amount` scaled by the playback speed, rounded down.
    pub open spec fn source_shrink(self, amount: u32) -> int {
        (amount as int * self.source_timerange.duration as int)
            / self.target_timerange.duration as int
    }

    /// Create a new segment.
    pub fn new(id: &str, segment_type: SegmentType, material_id: &str, target_timerange: TimeRange,
        source_timerange: TimeRange) -> (r: Segment)
        ensures
            r.id@ == id@,
            r.segment_type == segment_type,
            r.material_id@ == material_id@,
            r.target_timerange == target_timerange,
            r.source_timerange == source_timerange,
            r.scale is None,
            r.position is None,
    {
        Segment {
            id: String::from_str(id),
            segment_type,
            material_id: String::from_str(material_id),
            target_timerange,
            source_timerange,
            scale: None,
            position: None,
        }
    }

    /// Create a video segment with a fresh identifier.
    pub fn video(material_id: &str, target_timerange: TimeRange, source_timerange: TimeRange) -> (r:
        Segment)
        ensures
            r.id@.len() == 36,
            r.segment_type == SegmentType::Video,
            r.material_id@ == material_id@,
            r.target_timerange == target_timerange,
            r.source_timerange == source_timerange,
            r.scale is None,
            r.position is None,
    {
        Segment {
            id: fresh_id(),
            segment_type: SegmentType::Video,
            material_id: String::from_str(material_id),
            target_timerange,
            source_timerange,
            scale: None,
            position: None,
        }
    }

    /// Create an audio segment.
    pub fn audio(id: &str, material_id: &str, target_timerange: TimeRange,
        source_timerange: TimeRange) -> (r: Segment)
        ensures
            r.id@ == id@,
            r.segment_type == SegmentType::Audio,
            r.material_id@ == material_id@,
            r.target_timerange == target_timerange,
            r.source_timerange == source_timerange,
            r.scale is None,
            r.position is None,
    {
        Segment::new(id, SegmentType::Audio, material_id, target_timerange, source_timerange)
    }

    /// Create an image segment.
    pub fn image(id: &str, material_id: &str, target_timerange: TimeRange,
        source_timerange: TimeRange) -> (r: Segment)
        ensures
            r.id@ == id@,
            r.segment_type == SegmentType::Image,
            r.material_id@ == material_id@,
            r.target_timerange == target_timerange,
            r.source_timerange == source_timerange,
            r.scale is None,
            r.position is None,
    {
        Segment::new(id, SegmentType::Image, material_id, target_timerange, source_timerange)
    }

    /// Create a text segment.
    pub fn text(id: &str, material_id: &str, target_timerange: TimeRange,
        source_timerange: TimeRange) -> (r: Segment)
        ensures
            r.id@ == id@,
            r.segment_type == SegmentType::Text,
            r.material_id@ == material_id@,
            r.target_timerange == target_timerange,
            r.source_timerange == source_timerange,
            r.scale is None,
            r.position is None,
    {
        Segment::new(id, SegmentType::Text, material_id, target_timerange, source_timerange)
    }

    /// Set the visual size.
    pub fn scale(self, scale: Dimension) -> (r: Segment)
        ensures
            r == (Segment { scale: Some(scale), ..self }),
    {
        Segment { scale: Some(scale), ..self }
    }

    /// Set the stage position.
    pub fn position(self, position: Position) -> (r: Segment)
        ensures
            r == (Segment { position: Some(position), ..self }),
    {
        Segment { position: Some(position), ..self }
    }

    /// The end of the target window on the timeline.
    pub fn target_end_time(&self) -> (r: u32)
        requires
            self.target_timerange.wf(),
        ensures
            r as int == self.target_timerange.end_spec(),
    {
        self.target_timerange.start + self.target_timerange.duration
    }

    /// The end of the source window in the material.
    pub fn source_end_time(&self) -> (r: u32)
        requires
            self.source_timerange.wf(),
        ensures
            r as int == self.source_timerange.end_spec(),
    {
        self.source_timerange.start + self.source_timerange.duration
    }

    /// Whether the target window contains the given timeline instant.
    pub fn contains_time(&self, time: u32) -> (r: bool)
        ensures
            r == self.target_timerange.contains_spec(time as int),
    {
        self.target_timerange.contains(time)
    }

    /// Whether the target windows of two segments overlap.
    pub fn overlaps_with(&self, other: &Segment) -> (r: bool)
        ensures
            r == self.target_timerange.overlaps_spec(other.target_timerange),
    {
        self.target_timerange.overlaps(&other.target_timerange)
    }

    /// The playback speed in thousandths: `source.duration * 1000 /
    /// target.duration`, rounded down, or 1000 when the target is empty.
    pub fn playback_speed_milli(&self) -> (r: u64)
        ensures
            r as int == (if self.target_timerange.duration == 0 {
                1000int
            } else {
                self.source_timerange.duration as int * 1000
                    / self.target_timerange.duration as int
            }),
    {
        if self.target_timerange.duration == 0 {
            1000
        } else {
            proof {
                numeric::lemma_u32_mul_fits(self.source_timerange.duration as int, 1000);
            }
            (self.source_timerange.duration as u64) * 1000 / (self.target_timerange.duration
                as u64)
        }
    }

    /// Whether the source and target windows differ in length.
    pub fn needs_speed_adjustment(&self) -> (r: bool)
        ensures
            r == (self.source_timerange.duration != self.target_timerange.duration),
    {
        self.source_timerange.duration != self.target_timerange.duration
    }

    /// Check the segment: identifiers, durations, then the optional scale.
    pub fn validate(&self) -> (r: Result<(), CluvError>)
        ensures
            r is Ok <==> self.valid_spec(),
            r matches Err(e) ==> e matches CluvError::InvalidParams(s) && s@
                == self.first_error_view(),
    {
        if self.id.as_str().is_empty() {
            return Err(CluvError::invalid_params("Segment ID cannot be empty"));
        }
        if self.material_id.as_str().is_empty() {
            return Err(CluvError::invalid_params("Material ID cannot be empty"));
        }
        if self.target_timerange.duration == 0 {
            return Err(CluvError::invalid_params("Target duration must be positive"));
        }
        if self.source_timerange.duration == 0 {
            return Err(CluvError::invalid_params("Source duration must be positive"));
        }
        if let Some(scale) = self.scale {
            if scale.width <= 0 || scale.height <= 0 {
                return Err(CluvError::invalid_params("Scale dimensions must be positive"));
            }
        }
        Ok(())
    }

    /// Copy the segment under a new identifier.
    pub fn clone_with_id(&self, new_id: &str) -> (r: Segment)
        ensures
            r.id@ == new_id@,
            r.segment_type == self.segment_type,
            r.material_id == self.material_id,
            r.target_timerange == self.target_timerange,
            r.source_timerange == self.source_timerange,
            r.scale == self.scale,
            r.position == self.position,
    {
        Segment {
            id: String::from_str(new_id),
            segment_type: self.segment_type,
            material_id: self.material_id.clone(),
            target_timerange: self.target_timerange,
            source_timerange: self.source_timerange,
            scale: self.scale,
            position: self.position,
        }
    }

    /// Move the target window to a new start.
    pub fn move_to(&mut self, new_start: u32)
        ensures
            *final(self) == (Segment {
                target_timerange: TimeRange {
                    start: new_start,
                    duration: old(self).target_timerange.duration,
                },
                ..*old(self)
            }),
    {
        self.target_timerange.start = new_start;
    }

    /// Resize the target window.
    pub fn resize(&mut self, new_duration: u32)
        ensures
            *final(self) == (Segment {
                target_timerange: TimeRange {
                    start: old(self).target_timerange.start,
                    duration: new_duration,
                },
                ..*old(self)
            }),
    {
        self.target_timerange.duration = new_duration;
    }

    /// Shrink the target window from its start, clamping the duration at one
    /// millisecond, and consume the proportional amount of the source window.
    pub fn trim_start(&mut self, trim_amount: u32)
        requires
            old(self).wf(),
        ensures
            trim_amount >= old(self).target_timerange.duration ==> *final(self) == (Segment {
                target_timerange: TimeRange {
                    start: old(self).target_timerange.start,
                    duration: 1u32,
                },
                ..*old(self)
            }),
            trim_amount < old(self).target_timerange.duration ==> *final(self) == (Segment {
                target_timerange: TimeRange {
                    start: (old(self).target_timerange.start + trim_amount) as u32,
                    duration: (old(self).target_timerange.duration - trim_amount) as u32,
                },
                source_timerange: TimeRange {
                    start: (old(self).source_timerange.start + old(self).source_shrink(
                        trim_amount,
                    )) as u32,
                    duration: (if old(self).source_shrink(trim_amount)
                        < old(self).source_timerange.duration {
                        old(self).source_timerange.duration - old(self).source_shrink(trim_amount)
                    } else {
                        1int
                    }) as u32,
                },
                ..*old(self)
            }),
    {
        if trim_amount >= self.target_timerange.duration {
            self.target_timerange.duration = 1;
            return ;
        }
        let st = self.shrink_amount(trim_amount);
        self.target_timerange.start = self.target_timerange.start + trim_amount;
        self.target_timerange.duration = self.target_timerange.duration - trim_amount;
        self.source_timerange.start = self.source_timerange.start + st;
        if st < self.source_timerange.duration {
            self.source_timerange.duration = self.source_timerange.duration - st;
        } else {
            self.source_timerange.duration = 1;
        }
    }

    /// Shrink the target window from its end, clamping the duration at one
    /// millisecond, and drop the proportional amount of the source window.
    pub fn trim_end(&mut self, trim_amount: u32)
        requires
            old(self).wf(),
        ensures
            trim_amount >= old(self).target_timerange.duration ==> *final(self) == (Segment {
                target_timerange: TimeRange {
                    start: old(self).target_timerange.start,
                    duration: 1u32,
                },
                ..*old(self)
            }),
            trim_amount < old(self).target_timerange.duration ==> *final(self) == (Segment {
                target_timerange: TimeRange {
                    start: old(self).target_timerange.start,
                    duration: (old(self).target_timerange.duration - trim_amount) as u32,
                },
                source_timerange: TimeRange {
                    start: old(self).source_timerange.start,
                    duration: (if old(self).source_shrink(trim_amount)
                        < old(self).source_timerange.duration {
                        old(self).source_timerange.duration - old(self).source_shrink(trim_amount)
                    } else {
                        1int
                    }) as u32,
                },
                ..*old(self)
            }),
    {
        if trim_amount >= self.target_timerange.duration {
            self.target_timerange.duration = 1;
            return ;
        }
        let st = self.shrink_amount(trim_amount);
        self.target_timerange.duration = self.target_timerange.duration - trim_amount;
        if st < self.source_timerange.duration {
            self.source_timerange.duration = self.source_timerange.duration - st;
        } else {
            self.source_timerange.duration = 1;
        }
    }

    /// The source milliseconds consumed by trimming `amount` target
    /// milliseconds, rounded down; it never exceeds the source duration.
    fn shrink_amount(&self, amount: u32) -> (r: u32)
        requires
            amount < self.target_timerange.duration,
        ensures
            r as int == self.source_shrink(amount),
            self.source_timerange.duration > 0 ==> r < self.source_timerange.duration,
            self.source_timerange.duration == 0 ==> r == 0,
    {
        let src = self.source_timerange.duration;
        let tgt = self.target_timerange.duration;
        proof {
            numeric::lemma_u32_mul_fits(amount as int, src as int);
            if src > 0 {
                assert((amount as int * src as int) < (src as int * tgt as int)) by (nonlinear_arith)
                    requires
                        (amount as int) < (tgt as int),
                        src as int > 0,
                ;
                lemma_div_below(amount as int * src as int, tgt as int, src as int);
            }
        }
        let st64: u64 = (amount as u64) * (src as u64) / (tgt as u64);
        proof {
            if src == 0 {
                assert(amount as int * src as int == 0) by (nonlinear_arith)
                    requires
                        src as int == 0,
                ;
            }
            assert(st64 < 0x1_0000_0000);
        }
        st64 as u32
    }

    /// Split the segment at a timeline instant inside its target window.
    ///
    /// The two halves partition the target window at `time` and partition the
    /// source window proportionally, using the playback speed of the original
    /// segment; their identifiers gain "_part1" and "_part2" suffixes.
    pub fn split_at(&self, time: u32) -> (r: Result<(Segment, Segment), CluvError>)
        requires
            self.wf(),
        ensures
            r is Ok <==> self.target_timerange.contains_spec(time as int),
            r matches Err(e) ==> e matches CluvError::InvalidParams(s) && s@
                == "Split time is not within segment"@,
            r matches Ok(pair) ==> self.is_split_pair(time, pair.0, pair.1),
    {
        if !self.contains_time(time) {
            return Err(CluvError::invalid_params("Split time is not within segment"));
        }
        let offset = time - self.target_timerange.start;
        let first_duration = offset;
        let second_duration = self.target_timerange.duration - offset;
        proof {
            numeric::lemma_u32_mul_fits(offset as int, self.source_timerange.duration as int);
            if self.source_timerange.duration > 0 {
                assert((offset as int * self.source_timerange.duration as int)
                    < (self.source_timerange.duration as int * self.target_timerange.duration
                    as int)) by (nonlinear_arith)
                    requires
                        (offset as int) < (self.target_timerange.duration as int),
                        self.source_timerange.duration as int > 0,
                ;
                lemma_div_below(
                    offset as int * self.source_timerange.duration as int,
                    self.target_timerange.duration as int,
                    self.source_timerange.duration as int,
                );
            }
        }
        let so64: u64 = (offset as u64) * (self.source_timerange.duration as u64) / (
        self.target_timerange.duration as u64);
        proof {
            if self.source_timerange.duration == 0 {
                assert(offset as int * self.source_timerange.duration as int == 0)
                    by (nonlinear_arith)
                    requires
                        self.source_timerange.duration as int == 0,
                ;
            }
            assert(so64 as int <= self.source_timerange.duration as int);
        }
        let source_offset = so64 as u32;

        let mut first_id = self.id.clone();
        first_id.append("_part1");
        let first = Segment {
            id: first_id,
            segment_type: self.segment_type,
            material_id: self.material_id.clone(),
            target_timerange: TimeRange { start: self.target_timerange.start, duration: first_duration },
            source_timerange: TimeRange { start: self.source_timerange.start, duration: source_offset },
            scale: self.scale,
            position: self.position,
        };

        let mut second_id = self.id.clone();
        second_id.append("_part2");
        let second = Segment {
            id: second_id,
            segment_type: self.segment_type,
            material_id: self.material_id.clone(),
            target_timerange: TimeRange { start: time, duration: second_duration },
            source_timerange: TimeRange {
                start: self.source_timerange.start + source_offset,
                duration: self.source_timerange.duration - source_offset,
            },
            scale: self.scale,
            position: self.position,
        };

        Ok((first, second))
    }

    /// What `split_at(time)` returns on success: the exact shape of the two
    /// halves.
    pub open spec fn is_split_pair(self, time: u32, first: Segment, second: Segment) -> bool {
        let offset = time - self.target_timerange.start;
        let source_offset = (offset * self.source_timerange.duration as int)
            / self.target_timerange.duration as int;
        &&& first.id@ == self.id@ + "_part1"@
        &&& second.id@ == self.id@ + "_part2"@
        &&& first.segment_type == self.segment_type
        &&& second.segment_type == self.segment_type
        &&& first.material_id@ == self.material_id@
        &&& second.material_id@ == self.material_id@
        &&& first.target_timerange == (TimeRange {
            start: self.target_timerange.start,
            duration: offset as u32,
        })
        &&& second.target_timerange == (TimeRange {
            start: time,
            duration: (self.target_timerange.duration - offset) as u32,
        })
        &&& first.source_timerange == (TimeRange {
            start: self.source_timerange.start,
            duration: source_offset as u32,
        })
        &&& second.source_timerange == (TimeRange {
            start: (self.source_timerange.start + source_offset) as u32,
            duration: (self.source_timerange.duration - source_offset) as u32,
        })
        &&& first.scale == self.scale
        &&& second.scale == self.scale
        &&& first.position == self.position
        &&& second.position == self.position
    }
}

/// Trimming by zero changes nothing, for segments whose windows have
/// positive durations.
pub proof fn lemma_trim_zero_is_noop(pre: Segment, post_start: Segment, post_end: Segment)
    requires
        pre.wf(),
        pre.target_timerange.duration > 0,
        pre.source_timerange.duration > 0,
        post_start == (Segment {
            target_timerange: TimeRange {
                start: (pre.target_timerange.start + 0) as u32,
                duration: (pre.target_timerange.duration - 0) as u32,
            },
            source_timerange: TimeRange {
                start: (pre.source_timerange.start + pre.source_shrink(0)) as u32,
                duration: (if pre.source_shrink(0) < pre.source_timerange.duration {
                    pre.source_timerange.duration - pre.source_shrink(0)
                } else {
                    1int
                }) as u32,
            },
            ..pre
        }),
        post_end == (Segment {
            target_timerange: TimeRange {
                start: pre.target_timerange.start,
                duration: (pre.target_timerange.duration - 0) as u32,
            },
            source_timerange: TimeRange {
                start: pre.source_timerange.start,
                duration: (if pre.source_shrink(0) < pre.source_timerange.duration {
                    pre.source_timerange.duration - pre.source_shrink(0)
                } else {
                    1int
                }) as u32,
            },
            ..pre
        }),
    ensures
        post_start == pre,
        post_end == pre,
{
    assert(pre.source_shrink(0) == 0) by {
        assert(0int * pre.source_timerange.duration as int == 0);
        assert(0int / pre.target_timerange.duration as int == 0);
    }
}

/// Splitting partitions the target window at the split point and the source
/// window proportionally, with the proportion taken from the original
/// segment; nothing of the source window is lost.
pub proof fn lemma_split_partition(pre: Segment, time: u32, first: Segment, second: Segment)
    requires
        pre.wf(),
        pre.target_timerange.contains_spec(time as int),
        pre.is_split_pair(time, first, second),
    ensures
        first.target_timerange.start == pre.target_timerange.start,
        first.target_timerange.end_spec() == time as int,
        second.target_timerange.start == time,
        second.target_timerange.end_spec() == pre.target_timerange.end_spec(),
        first.source_timerange.start == pre.source_timerange.start,
        second.source_timerange.start as int == first.source_timerange.end_spec(),
        first.source_timerange.duration as int + second.source_timerange.duration as int
            == pre.source_timerange.duration as int,
        first.source_timerange.duration as int == (time - pre.target_timerange.start)
            * pre.source_timerange.duration as int / pre.target_timerange.duration as int,
{
    let offset = time - pre.target_timerange.start;
    let src = pre.source_timerange.duration as int;
    let tgt = pre.target_timerange.duration as int;
    let source_offset = (offset * src) / tgt;
    assert(tgt > offset >= 0);
    if src > 0 {
        assert(offset * src < src * tgt) by (nonlinear_arith)
            requires
                offset < tgt,
                src > 0,
        ;
        lemma_div_below(offset * src, tgt, src);
        vstd::arithmetic::div_mod::lemma_div_pos_is_pos(offset * src, tgt);
        assert(offset * src >= 0) by (nonlinear_arith)
            requires
                offset >= 0,
                src >= 0,
        ;
    } else {
        assert(offset * src == 0) by (nonlinear_arith)
            requires
                src == 0,
        ;
        assert(source_offset == 0);
    }
    assert(0 <= source_offset <= src);
}

} // verus!
