//! Materials: the media assets a composition refers to.
//!
//! A material is a video, audio or image asset with an identity, a source
//! locator and optional enrichment metadata. Frame rates are stored in
//! thousandths of a frame per second so that all metadata stays integral.

use vstd::prelude::*;

use crate::error::CluvError;
use crate::ident::fresh_id;
use crate::numeric::{mul_div_round, round_div};

verus! {

/// Width and height in pixels.
#[derive(Debug, Clone, Copy, PartialEq, Eq, Structural)]
pub struct Dimension {
    /// Width in pixels.
    pub width: i32,
    /// Height in pixels.
    pub height: i32,
}

/// Material kind tag.
#[derive(Debug, Clone, Copy, PartialEq, Eq, Structural)]
pub enum MaterialType {
    /// Video material.
    Video,
    /// Audio material.
    Audio,
    /// Image material.
    Image,
}

/// Video material with optional enrichment metadata.
#[derive(Debug, Clone, PartialEq, Eq)]
pub struct VideoMaterial {
    /// Unique identifier.
    pub id: String,
    /// Source file path or URL.
    pub src: String,
    /// Video dimensions.
    pub dimension: Dimension,
    /// Duration in milliseconds, when known.
    pub duration: Option<u32>,
    /// Frame rate in thousandths of a frame per second, when known.
    pub fps: Option<u32>,
    /// Video codec name, when known.
    pub codec: Option<String>,
    /// Bitrate in kbps, when known.
    pub bitrate: Option<u32>,
}

/// Audio material with optional enrichment metadata.
#[derive(Debug, Clone, PartialEq, Eq)]
pub struct AudioMaterial {
    /// Unique identifier.
    pub id: String,
    /// Source file path or URL.
    pub src: String,
    /// Duration in milliseconds, when known.
    pub duration: Option<u32>,
    /// Sample rate in Hz, when known.
    pub sample_rate: Option<u32>,
    /// Number of channels, when known.
    pub channels: Option<u32>,
    /// Audio codec name, when known.
    pub codec: Option<String>,
    /// Bitrate in kbps, when known.
    pub bitrate: Option<u32>,
}

/// Image material with optional format metadata.
#[derive(Debug, Clone, PartialEq, Eq)]
pub struct ImageMaterial {
    /// Unique identifier.
    pub id: String,
    /// Source file path or URL.
    pub src: String,
    /// Image dimensions.
    pub dimension: Dimension,
    /// Image format, when known.
    pub format: Option<String>,
}

/// A media asset: video, audio or image.
#[derive(Debug, Clone, PartialEq, Eq)]
pub enum Material {
    /// Video material.
    Video(VideoMaterial),
    /// Audio material.
    Audio(AudioMaterial),
    /// Image material.
    Image(ImageMaterial),
}

impl Dimension {
    /// The width and height both strictly positive.
    pub open spec fn positive(self) -> bool {
        self.width > 0 && self.height > 0
    }

    /// Create a new dimension.
    pub fn new(width: i32, height: i32) -> (r: Dimension)
        ensures
            r == (Dimension { width, height }),
    {
        Dimension { width, height }
    }

    /// Whether the dimension is wider than tall.
    pub fn is_landscape(&self) -> (r: bool)
        ensures
            r == (self.width > self.height),
    {
        self.width > self.height
    }

    /// Whether the dimension is taller than wide.
    pub fn is_portrait(&self) -> (r: bool)
        ensures
            r == (self.width < self.height),
    {
        self.width < self.height
    }

    /// Whether the dimension is square.
    pub fn is_square(&self) -> (r: bool)
        ensures
            r == (self.width == self.height),
    {
        self.width == self.height
    }

    /// The number of pixels, as a 64-bit product.
    pub fn pixel_count(&self) -> (r: i64)
        ensures
            r as int == self.width as int * self.height as int,
    {
        proof {
            assert(-0x4000_0000_0000_0000 <= self.width as int * self.height as int
                <= 0x4000_0000_0000_0000) by (nonlinear_arith)
                requires
                    -0x8000_0000 <= self.width as int <= 0x7fff_ffff,
                    -0x8000_0000 <= self.height as int <= 0x7fff_ffff,
            ;
        }
        (self.width as i64) * (self.height as i64)
    }

    /// Scale both sides by the ratio `num / den`, rounding half away from
    /// zero.
    pub fn scale_by_ratio(&self, num: i32, den: i32) -> (r: Dimension)
        requires
            den > 0,
            i32::MIN <= round_div(self.width as int * num as int, den as int) <= i32::MAX,
            i32::MIN <= round_div(self.height as int * num as int, den as int) <= i32::MAX,
        ensures
            r.width as int == round_div(self.width as int * num as int, den as int),
            r.height as int == round_div(self.height as int * num as int, den as int),
    {
        proof {
            lemma_i32_product_bounded(self.width as int, num as int);
            lemma_i32_product_bounded(self.height as int, num as int);
        }
        let w = mul_div_round(self.width as i64, num as i64, den as i64);
        let h = mul_div_round(self.height as i64, num as i64, den as i64);
        Dimension { width: w as i32, height: h as i32 }
    }
}

/// The product of two values in i32 range stays within the bound that
/// rounded scaling needs.
proof fn lemma_i32_product_bounded(a: int, b: int)
    requires
        -0x8000_0000 <= a <= 0x7fff_ffff,
        -0x8000_0000 <= b <= 0x7fff_ffff,
    ensures
        -0x4000_0000_0000_0000 <= a * b <= 0x4000_0000_0000_0000,
{
    assert(-0x4000_0000_0000_0000 <= a * b <= 0x4000_0000_0000_0000) by (nonlinear_arith)
        requires
            -0x8000_0000 <= a <= 0x7fff_ffff,
            -0x8000_0000 <= b <= 0x7fff_ffff,
    ;
}

impl From<(i32, i32)> for Dimension {
    /// Build a dimension from a `(width, height)` pair.
    fn from(tuple: (i32, i32)) -> (r: Dimension) {
        Dimension { width: tuple.0, height: tuple.1 }
    }
}

impl vstd::std_specs::convert::FromSpecImpl<(i32, i32)> for Dimension {
    open spec fn obeys_from_spec() -> bool {
        true
    }

    open spec fn from_spec(tuple: (i32, i32)) -> Dimension {
        Dimension { width: tuple.0, height: tuple.1 }
    }
}

impl From<Dimension> for (i32, i32) {
    /// Split a dimension into a `(width, height)` pair.
    fn from(dim: Dimension) -> (r: (i32, i32)) {
        (dim.width, dim.height)
    }
}

impl vstd::std_specs::convert::FromSpecImpl<Dimension> for (i32, i32) {
    open spec fn obeys_from_spec() -> bool {
        true
    }

    open spec fn from_spec(dim: Dimension) -> (i32, i32) {
        (dim.width, dim.height)
    }
}

impl MaterialType {
    /// The lowercase tag for this material kind.
    pub fn to_string(&self) -> (r: String)
        ensures
            r@ == self.tag_view(),
    {
        match self {
            MaterialType::Video => String::from_str("video"),
            MaterialType::Audio => String::from_str("audio"),
            MaterialType::Image => String::from_str("image"),
        }
    }

    /// The lowercase tag of a material kind.
    pub open spec fn tag_view(&self) -> Seq<char> {
        match self {
            MaterialType::Video => "video"@,
            MaterialType::Audio => "audio"@,
            MaterialType::Image => "image"@,
        }
    }
}

impl VideoMaterial {
    /// The material's own validity: positive dimensions and, when present, a
    /// positive frame rate.
    pub open spec fn valid_spec(self) -> bool {
        &&& self.dimension.width > 0
        &&& self.dimension.height > 0
        &&& (self.fps matches Some(f) ==> f > 0)
    }

    /// The message of the first violation, checked in a fixed order.
    pub open spec fn first_error_view(self) -> Seq<char> {
        if self.dimension.width <= 0 {
            "Video width must be positive"@
        } else if self.dimension.height <= 0 {
            "Video height must be positive"@
        } else {
            "Video FPS must be positive"@
        }
    }

    /// Create a new video material.
    pub fn new(id: &str, src: &str, width: i32, height: i32) -> (r: VideoMaterial)
        ensures
            r.id@ == id@,
            r.src@ == src@,
            r.dimension == (Dimension { width, height }),
            r.duration is None,
            r.fps is None,
            r.codec is None,
            r.bitrate is None,
    {
        VideoMaterial {
            id: String::from_str(id),
            src: String::from_str(src),
            dimension: Dimension { width, height },
            duration: None,
            fps: None,
            codec: None,
            bitrate: None,
        }
    }

    /// Set the duration in milliseconds.
    pub fn with_duration(self, duration: u32) -> (r: VideoMaterial)
        ensures
            r == (VideoMaterial { duration: Some(duration), ..self }),
    {
        VideoMaterial { duration: Some(duration), ..self }
    }

    /// Set the frame rate, in thousandths of a frame per second.
    pub fn with_fps(self, fps: u32) -> (r: VideoMaterial)
        ensures
            r == (VideoMaterial { fps: Some(fps), ..self }),
    {
        VideoMaterial { fps: Some(fps), ..self }
    }

    /// Set the codec name.
    pub fn with_codec(self, codec: &str) -> (r: VideoMaterial)
        ensures
            r.codec matches Some(c) && c@ == codec@,
            r == (VideoMaterial { codec: r.codec, ..self }),
    {
        VideoMaterial { codec: Some(String::from_str(codec)), ..self }
    }

    /// Set the bitrate in kbps.
    pub fn with_bitrate(self, bitrate: u32) -> (r: VideoMaterial)
        ensures
            r == (VideoMaterial { bitrate: Some(bitrate), ..self }),
    {
        VideoMaterial { bitrate: Some(bitrate), ..self }
    }

    /// Check the material's own validity.
    pub fn validate(&self) -> (r: Result<(), CluvError>)
        ensures
            r is Ok <==> self.valid_spec(),
            r matches Err(e) ==> e matches CluvError::InvalidParams(s) && s@
                == self.first_error_view(),
    {
        if self.dimension.width <= 0 {
            return Err(CluvError::invalid_params("Video width must be positive"));
        }
        if self.dimension.height <= 0 {
            return Err(CluvError::invalid_params("Video height must be positive"));
        }
        if let Some(fps) = self.fps {
            if fps == 0 {
                return Err(CluvError::invalid_params("Video FPS must be positive"));
            }
        }
        Ok(())
    }
}

impl AudioMaterial {
    /// The material's own validity: positive sample rate and channel count
    /// when present.
    pub open spec fn valid_spec(self) -> bool {
        &&& (self.sample_rate matches Some(s) ==> s > 0)
        &&& (self.channels matches Some(c) ==> c > 0)
    }

    /// The message of the first violation, checked in a fixed order.
    pub open spec fn first_error_view(self) -> Seq<char> {
        if self.sample_rate matches Some(s) && s == 0 {
            "Sample rate must be positive"@
        } else {
            "Channel count must be positive"@
        }
    }

    /// Create a new audio material.
    pub fn new(id: &str, src: &str) -> (r: AudioMaterial)
        ensures
            r.id@ == id@,
            r.src@ == src@,
            r.duration is None,
            r.sample_rate is None,
            r.channels is None,
            r.codec is None,
            r.bitrate is None,
    {
        AudioMaterial {
            id: String::from_str(id),
            src: String::from_str(src),
            duration: None,
            sample_rate: None,
            channels: None,
            codec: None,
            bitrate: None,
        }
    }

    /// Set the duration in milliseconds.
    pub fn with_duration(self, duration: u32) -> (r: AudioMaterial)
        ensures
            r == (AudioMaterial { duration: Some(duration), ..self }),
    {
        AudioMaterial { duration: Some(duration), ..self }
    }

    /// Set the sample rate in Hz.
    pub fn with_sample_rate(self, sample_rate: u32) -> (r: AudioMaterial)
        ensures
            r == (AudioMaterial { sample_rate: Some(sample_rate), ..self }),
    {
        AudioMaterial { sample_rate: Some(sample_rate), ..self }
    }

    /// Set the number of channels.
    pub fn with_channels(self, channels: u32) -> (r: AudioMaterial)
        ensures
            r == (AudioMaterial { channels: Some(channels), ..self }),
    {
        AudioMaterial { channels: Some(channels), ..self }
    }

    /// Set the codec name.
    pub fn with_codec(self, codec: &str) -> (r: AudioMaterial)
        ensures
            r.codec matches Some(c) && c@ == codec@,
            r == (AudioMaterial { codec: r.codec, ..self }),
    {
        AudioMaterial { codec: Some(String::from_str(codec)), ..self }
    }

    /// Set the bitrate in kbps.
    pub fn with_bitrate(self, bitrate: u32) -> (r: AudioMaterial)
        ensures
            r == (AudioMaterial { bitrate: Some(bitrate), ..self }),
    {
        AudioMaterial { bitrate: Some(bitrate), ..self }
    }

    /// Check the material's own validity.
    pub fn validate(&self) -> (r: Result<(), CluvError>)
        ensures
            r is Ok <==> self.valid_spec(),
            r matches Err(e) ==> e matches CluvError::InvalidParams(s) && s@
                == self.first_error_view(),
    {
        if let Some(sample_rate) = self.sample_rate {
            if sample_rate == 0 {
                return Err(CluvError::invalid_params("Sample rate must be positive"));
            }
        }
        if let Some(channels) = self.channels {
            if channels == 0 {
                return Err(CluvError::invalid_params("Channel count must be positive"));
            }
        }
        Ok(())
    }
}

impl ImageMaterial {
    /// The material's own validity: positive dimensions.
    pub open spec fn valid_spec(self) -> bool {
        self.dimension.width > 0 && self.dimension.height > 0
    }

    /// The message of the first violation, checked in a fixed order.
    pub open spec fn first_error_view(self) -> Seq<char> {
        if self.dimension.width <= 0 {
            "Image width must be positive"@
        } else {
            "Image height must be positive"@
        }
    }

    /// Create a new image material.
    pub fn new(id: &str, src: &str, width: i32, height: i32) -> (r: ImageMaterial)
        ensures
            r.id@ == id@,
            r.src@ == src@,
            r.dimension == (Dimension { width, height }),
            r.format is None,
    {
        ImageMaterial {
            id: String::from_str(id),
            src: String::from_str(src),
            dimension: Dimension { width, height },
            format: None,
        }
    }

    /// Set the format name.
    pub fn with_format(self, format: &str) -> (r: ImageMaterial)
        ensures
            r.format matches Some(f) && f@ == format@,
            r == (ImageMaterial { format: r.format, ..self }),
    {
        ImageMaterial { format: Some(String::from_str(format)), ..self }
    }

    /// Check the material's own validity.
    pub fn validate(&self) -> (r: Result<(), CluvError>)
        ensures
            r is Ok <==> self.valid_spec(),
            r matches Err(e) ==> e matches CluvError::InvalidParams(s) && s@
                == self.first_error_view(),
    {
        if self.dimension.width <= 0 {
            return Err(CluvError::invalid_params("Image width must be positive"));
        }
        if self.dimension.height <= 0 {
            return Err(CluvError::invalid_params("Image height must be positive"));
        }
        Ok(())
    }
}

impl Material {
    /// The identifier of a material value.
    pub open spec fn id_view(self) -> Seq<char> {
        match self {
            Material::Video(v) => v.id@,
            Material::Audio(a) => a.id@,
            Material::Image(i) => i.id@,
        }
    }

    /// The source locator of a material value.
    pub open spec fn src_view(self) -> Seq<char> {
        match self {
            Material::Video(v) => v.src@,
            Material::Audio(a) => a.src@,
            Material::Image(i) => i.src@,
        }
    }

    /// A material is valid when its identity and source are nonempty and its
    /// kind-specific fields are valid.
    pub open spec fn valid_spec(self) -> bool {
        &&& self.id_view().len() > 0
        &&& self.src_view().len() > 0
        &&& match self {
            Material::Video(v) => v.valid_spec(),
            Material::Audio(a) => a.valid_spec(),
            Material::Image(i) => i.valid_spec(),
        }
    }

    /// The message of the first violation, checked in a fixed order.
    pub open spec fn first_error_view(self) -> Seq<char> {
        if self.id_view().len() == 0 {
            "Material ID cannot be empty"@
        } else if self.src_view().len() == 0 {
            "Material source cannot be empty"@
        } else {
            match self {
                Material::Video(v) => v.first_error_view(),
                Material::Audio(a) => a.first_error_view(),
                Material::Image(i) => i.first_error_view(),
            }
        }
    }

    /// Get the material ID.
    pub fn id(&self) -> (r: &str)
        ensures
            r@ == self.id_view(),
    {
        match self {
            Material::Video(v) => v.id.as_str(),
            Material::Audio(a) => a.id.as_str(),
            Material::Image(i) => i.id.as_str(),
        }
    }

    /// Get the source path.
    pub fn src(&self) -> (r: &str)
        ensures
            r@ == self.src_view(),
    {
        match self {
            Material::Video(v) => v.src.as_str(),
            Material::Audio(a) => a.src.as_str(),
            Material::Image(i) => i.src.as_str(),
        }
    }

    /// Get the material kind tag.
    pub fn material_type(&self) -> (r: MaterialType)
        ensures
            r == (match self {
                Material::Video(_) => MaterialType::Video,
                Material::Audio(_) => MaterialType::Audio,
                Material::Image(_) => MaterialType::Image,
            }),
    {
        match self {
            Material::Video(_) => MaterialType::Video,
            Material::Audio(_) => MaterialType::Audio,
            Material::Image(_) => MaterialType::Image,
        }
    }

    /// Get dimensions if this kind carries them.
    pub fn dimensions(&self) -> (r: Option<Dimension>)
        ensures
            r == (match self {
                Material::Video(v) => Some(v.dimension),
                Material::Image(i) => Some(i.dimension),
                Material::Audio(_) => None::<Dimension>,
            }),
    {
        match self {
            Material::Video(v) => Some(v.dimension),
            Material::Image(i) => Some(i.dimension),
            Material::Audio(_) => None,
        }
    }

    /// Get the duration in milliseconds if this kind carries one.
    pub fn duration(&self) -> (r: Option<u32>)
        ensures
            r == (match self {
                Material::Video(v) => v.duration,
                Material::Audio(a) => a.duration,
                Material::Image(_) => None::<u32>,
            }),
    {
        match self {
            Material::Video(v) => v.duration,
            Material::Audio(a) => a.duration,
            Material::Image(_) => None,
        }
    }

    /// Check the material: identity, source, then kind-specific validity.
    pub fn validate(&self) -> (r: Result<(), CluvError>)
        ensures
            r is Ok <==> self.valid_spec(),
            r matches Err(e) ==> e matches CluvError::InvalidParams(s) && s@
                == self.first_error_view(),
    {
        if self.id().is_empty() {
            return Err(CluvError::invalid_params("Material ID cannot be empty"));
        }
        if self.src().is_empty() {
            return Err(CluvError::invalid_params("Material source cannot be empty"));
        }
        match self {
            Material::Video(v) => v.validate(),
            Material::Audio(a) => a.validate(),
            Material::Image(i) => i.validate(),
        }
    }

    /// Create a video material with a fresh identifier and unknown metadata.
    pub fn video(src: &str) -> (r: Material)
        ensures
            r matches Material::Video(v) && v.src@ == src@ && v.id@.len() == 36 && v.dimension
                == (Dimension { width: 0, height: 0 }) && v.duration is None && v.fps is None
                && v.codec is None && v.bitrate is None,
    {
        Material::Video(
            VideoMaterial {
                id: fresh_id(),
                src: String::from_str(src),
                dimension: Dimension { width: 0, height: 0 },
                duration: None,
                fps: None,
                codec: None,
                bitrate: None,
            },
        )
    }

    /// Create an audio material with a fresh identifier and unknown metadata.
    pub fn audio(src: &str) -> (r: Material)
        ensures
            r matches Material::Audio(a) && a.src@ == src@ && a.id@.len() == 36
                && a.duration is None && a.sample_rate is None && a.channels is None
                && a.codec is None && a.bitrate is None,
    {
        Material::Audio(
            AudioMaterial {
                id: fresh_id(),
                src: String::from_str(src),
                duration: None,
                sample_rate: None,
                channels: None,
                codec: None,
                bitrate: None,
            },
        )
    }

    /// Create an image material with a fresh identifier and unknown metadata.
    pub fn image(src: &str) -> (r: Material)
        ensures
            r matches Material::Image(i) && i.src@ == src@ && i.id@.len() == 36 && i.dimension
                == (Dimension { width: 0, height: 0 }) && i.format is None,
    {
        Material::Image(
            ImageMaterial {
                id: fresh_id(),
                src: String::from_str(src),
                dimension: Dimension { width: 0, height: 0 },
                format: None,
            },
        )
    }
}

} // verus!
