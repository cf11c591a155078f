//! The stage: canvas dimensions for visual composition.

use vstd::prelude::*;

use crate::error::CluvError;
use crate::numeric::{fit_dims, mul_div_round, round_div, trunc_div};
use crate::numeric;
use crate::strutil::int_str;
use crate::strutil::i32_to_string;

verus! {

/// Canvas dimensions in pixels.
#[derive(Debug, Clone, Copy, PartialEq, Eq, Structural)]
pub struct Stage {
    /// Stage width in pixels.
    pub width: i32,
    /// Stage height in pixels.
    pub height: i32,
}

impl Stage {
    /// Both dimensions strictly positive.
    pub open spec fn valid_spec(self) -> bool {
        self.width > 0 && self.height > 0
    }

    /// Create a new stage.
    pub fn new(width: i32, height: i32) -> (r: Stage)
        ensures
            r == (Stage { width, height }),
    {
        Stage { width, height }
    }

    /// A 1920x1080 stage.
    pub fn hd1080() -> (r: Stage)
        ensures
            r == (Stage { width: 1920, height: 1080 }),
    {
        Stage { width: 1920, height: 1080 }
    }

    /// A 1280x720 stage.
    pub fn hd720() -> (r: Stage)
        ensures
            r == (Stage { width: 1280, height: 720 }),
    {
        Stage { width: 1280, height: 720 }
    }

    /// A 3840x2160 stage.
    pub fn uhd4k() -> (r: Stage)
        ensures
            r == (Stage { width: 3840, height: 2160 }),
    {
        Stage { width: 3840, height: 2160 }
    }

    /// A 1080x1920 stage.
    pub fn vertical_hd() -> (r: Stage)
        ensures
            r == (Stage { width: 1080, height: 1920 }),
    {
        Stage { width: 1080, height: 1920 }
    }

    /// A 1080x1080 stage.
    pub fn square() -> (r: Stage)
        ensures
            r == (Stage { width: 1080, height: 1080 }),
    {
        Stage { width: 1080, height: 1080 }
    }

    /// Whether the stage is wider than tall.
    pub fn is_landscape(&self) -> (r: bool)
        ensures
            r == (self.width > self.height),
    {
        self.width > self.height
    }

    /// Whether the stage is taller than wide.
    pub fn is_portrait(&self) -> (r: bool)
        ensures
            r == (self.width < self.height),
    {
        self.width < self.height
    }

    /// Whether the stage is square.
    pub fn is_square(&self) -> (r: bool)
        ensures
            r == (self.width == self.height),
    {
        self.width == self.height
    }

    /// The number of pixels, as a 64-bit product.
    pub fn pixel_count(&self) -> (r: i64)
        ensures
            r as int == self.width as int * self.height as int,
    {
        proof {
            assert(-0x4000_0000_0000_0000 <= self.width as int * self.height as int
                <= 0x4000_0000_0000_0000) by (nonlinear_arith)
                requires
                    -0x8000_0000 <= self.width as int <= 0x7fff_ffff,
                    -0x8000_0000 <= self.height as int <= 0x7fff_ffff,
            ;
        }
        (self.width as i64) * (self.height as i64)
    }

    /// Check that both dimensions are positive.
    pub fn validate(&self) -> (r: Result<(), CluvError>)
        ensures
            r is Ok <==> self.valid_spec(),
            self.width <= 0 ==> (r matches Err(e) && e matches CluvError::InvalidParams(s) && s@
                == "Stage width must be positive"@),
            self.width > 0 && self.height <= 0 ==> (r matches Err(e) && e matches
                CluvError::InvalidParams(s) && s@ == "Stage height must be positive"@),
    {
        if self.width <= 0 {
            return Err(CluvError::invalid_params("Stage width must be positive"));
        }
        if self.height <= 0 {
            return Err(CluvError::invalid_params("Stage height must be positive"));
        }
        Ok(())
    }

    /// Scale both sides by the ratio `num / den`, rounding half away from
    /// zero.
    pub fn scale_by_ratio(&self, num: i32, den: i32) -> (r: Stage)
        requires
            den > 0,
            i32::MIN <= round_div(self.width as int * num as int, den as int) <= i32::MAX,
            i32::MIN <= round_div(self.height as int * num as int, den as int) <= i32::MAX,
        ensures
            r.width as int == round_div(self.width as int * num as int, den as int),
            r.height as int == round_div(self.height as int * num as int, den as int),
    {
        proof {
            assert(-0x4000_0000_0000_0000 <= self.width as int * num as int
                <= 0x4000_0000_0000_0000 && -0x4000_0000_0000_0000 <= self.height as int * num
                as int <= 0x4000_0000_0000_0000) by (nonlinear_arith)
                requires
                    -0x8000_0000 <= self.width as int <= 0x7fff_ffff,
                    -0x8000_0000 <= self.height as int <= 0x7fff_ffff,
                    -0x8000_0000 <= num as int <= 0x7fff_ffff,
            ;
        }
        let w = mul_div_round(self.width as i64, num as i64, den as i64);
        let h = mul_div_round(self.height as i64, num as i64, den as i64);
        Stage { width: w as i32, height: h as i32 }
    }

    /// Shrink to fit inside the given bounds, keeping the aspect ratio; a
    /// stage already inside the bounds is returned unchanged.
    pub fn fit_within(&self, max_width: i32, max_height: i32) -> (r: Stage)
        requires
            self.width > 0,
            self.height > 0,
            max_width >= 0,
            max_height >= 0,
        ensures
            max_width >= self.width && max_height >= self.height ==> r == *self,
            !(max_width >= self.width && max_height >= self.height) ==> 0 <= r.width <= max_width
                && 0 <= r.height <= max_height,
            !(max_width >= self.width && max_height >= self.height) && max_width as int
                * self.height as int <= max_height as int * self.width as int ==> r.width
                == max_width && r.height as int == round_div(
                self.height as int * max_width as int,
                self.width as int,
            ),
            !(max_width >= self.width && max_height >= self.height) && max_width as int
                * self.height as int > max_height as int * self.width as int ==> r.height
                == max_height && r.width as int == round_div(
                self.width as int * max_height as int,
                self.height as int,
            ),
    {
        let (w, h) = fit_dims(self.width, self.height, max_width, max_height);
        Stage { width: w, height: h }
    }

    /// Whether a point lies inside the stage.
    pub fn contains_point(&self, x: i32, y: i32) -> (r: bool)
        ensures
            r == (x >= 0 && x < self.width && y >= 0 && y < self.height),
    {
        x >= 0 && x < self.width && y >= 0 && y < self.height
    }

    /// Whether a rectangle lies entirely inside the stage.
    pub fn contains_rect(&self, x: i32, y: i32, width: i32, height: i32) -> (r: bool)
        ensures
            r == (x >= 0 && y >= 0 && x + width <= self.width && y + height <= self.height),
    {
        x >= 0 && y >= 0 && (x as i64 + width as i64) <= self.width as i64 && (y as i64 + height
            as i64) <= self.height as i64
    }

    /// The stage's center point; divisions truncate toward zero.
    pub fn center(&self) -> (r: (i32, i32))
        ensures
            r.0 as int == trunc_div(self.width as int, 2),
            r.1 as int == trunc_div(self.height as int, 2),
    {
        let cx = numeric::half_trunc(self.width as i64);
        let cy = numeric::half_trunc(self.height as i64);
        (cx as i32, cy as i32)
    }

    /// The dimensions as a `(width, height)` pair.
    pub fn as_tuple(&self) -> (r: (i32, i32))
        ensures
            r == (self.width, self.height),
    {
        (self.width, self.height)
    }

    /// Build a stage from a `(width, height)` pair.
    pub fn from_tuple(dimensions: (i32, i32)) -> (r: Stage)
        ensures
            r == (Stage { width: dimensions.0, height: dimensions.1 }),
    {
        Stage { width: dimensions.0, height: dimensions.1 }
    }

    /// Render as "WIDTHxHEIGHT".
    pub fn to_string(&self) -> (r: String)
        ensures
            r@ == int_str(self.width as int) + "x"@ + int_str(self.height as int),
    {
        let mut r = i32_to_string(self.width);
        r.append("x");
        let hs = i32_to_string(self.height);
        r.append(hs.as_str());
        r
    }
}

impl Default for Stage {
    /// The default stage is 1920x1080.
    fn default() -> (r: Stage)
        ensures
            r == (Stage { width: 1920, height: 1080 }),
    {
        Stage { width: 1920, height: 1080 }
    }
}

impl From<(i32, i32)> for Stage {
    /// Build a stage from a `(width, height)` pair.
    fn from(dimensions: (i32, i32)) -> (r: Stage) {
        Stage { width: dimensions.0, height: dimensions.1 }
    }
}

impl vstd::std_specs::convert::FromSpecImpl<(i32, i32)> for Stage {
    open spec fn obeys_from_spec() -> bool {
        true
    }

    open spec fn from_spec(dimensions: (i32, i32)) -> Stage {
        Stage { width: dimensions.0, height: dimensions.1 }
    }
}

impl From<Stage> for (i32, i32) {
    /// Split a stage into a `(width, height)` pair.
    fn from(stage: Stage) -> (r: (i32, i32)) {
        (stage.width, stage.height)
    }
}

impl vstd::std_specs::convert::FromSpecImpl<Stage> for (i32, i32) {
    open spec fn obeys_from_spec() -> bool {
        true
    }

    open spec fn from_spec(stage: Stage) -> (i32, i32) {
        (stage.width, stage.height)
    }
}

} // verus!
