//! Codec and container-format identifiers for the external media engine.

use vstd::prelude::*;

verus! {

/// Video codec selection.
#[derive(Debug, Clone, PartialEq, Eq)]
pub enum VideoCodec {
    /// H.264/AVC.
    H264,
    /// H.265/HEVC.
    H265,
    /// VP8.
    VP8,
    /// VP9.
    VP9,
    /// AV1.
    AV1,
    /// Motion JPEG.
    MJPEG,
    /// PNG.
    PNG,
    /// JPEG.
    JPEG,
    /// Copy the stream without re-encoding.
    Copy,
    /// No video stream.
    NoStream,
    /// Any other codec, by engine name.
    Custom(String),
}

/// Audio codec selection.
#[derive(Debug, Clone, PartialEq, Eq)]
pub enum AudioCodec {
    /// AAC.
    AAC,
    /// MP3.
    MP3,
    /// AC3.
    AC3,
    /// Opus.
    Opus,
    /// Vorbis.
    Vorbis,
    /// FLAC.
    FLAC,
    /// PCM.
    PCM,
    /// Copy the stream without re-encoding.
    Copy,
    /// No audio stream.
    NoStream,
    /// Any other codec, by engine name.
    Custom(String),
}

/// Container or format selection.
#[derive(Debug, Clone, PartialEq, Eq)]
pub enum Format {
    /// MP4 container.
    Mp4,
    /// AVI container.
    Avi,
    /// Matroska container.
    Mkv,
    /// WebM container.
    Webm,
    /// MOV container.
    Mov,
    /// FLV container.
    Flv,
    /// MP3 audio.
    Mp3,
    /// AAC audio.
    Aac,
    /// WAV audio.
    Wav,
    /// JPEG image.
    Jpeg,
    /// PNG image.
    Png,
    /// HLS playlist.
    Hls,
    /// MPEG transport stream.
    Mpegts,
    /// Image sequence.
    Image2,
    /// Any other format, by engine name.
    Custom(String),
}

/// Pixel format selection.
#[derive(Debug, Clone, PartialEq, Eq)]
pub enum PixelFormat {
    /// YUV 4:2:0 planar.
    Yuv420p,
    /// YUV 4:2:2 planar.
    Yuv422p,
    /// YUV 4:4:4 planar.
    Yuv444p,
    /// RGB 24-bit.
    Rgb24,
    /// RGBA 32-bit.
    Rgba,
    /// BGR 24-bit.
    Bgr24,
    /// BGRA 32-bit.
    Bgra,
    /// Any other pixel format, by engine name.
    Custom(String),
}

impl VideoCodec {
    /// The engine name of a video codec.
    pub open spec fn name_view(self) -> Seq<char> {
        match self {
            VideoCodec::H264 => "libx264"@,
            VideoCodec::H265 => "libx265"@,
            VideoCodec::VP8 => "libvpx"@,
            VideoCodec::VP9 => "libvpx-vp9"@,
            VideoCodec::AV1 => "libaom-av1"@,
            VideoCodec::MJPEG => "mjpeg"@,
            VideoCodec::PNG => "png"@,
            VideoCodec::JPEG => "mjpeg"@,
            VideoCodec::Copy => "copy"@,
            VideoCodec::NoStream => "none"@,
            VideoCodec::Custom(s) => s@,
        }
    }

    /// The engine codec string.
    pub fn as_str(&self) -> (r: &str)
        ensures
            r@ == self.name_view(),
    {
        match self {
            VideoCodec::H264 => "libx264",
            VideoCodec::H265 => "libx265",
            VideoCodec::VP8 => "libvpx",
            VideoCodec::VP9 => "libvpx-vp9",
            VideoCodec::AV1 => "libaom-av1",
            VideoCodec::MJPEG => "mjpeg",
            VideoCodec::PNG => "png",
            VideoCodec::JPEG => "mjpeg",
            VideoCodec::Copy => "copy",
            VideoCodec::NoStream => "none",
            VideoCodec::Custom(s) => s.as_str(),
        }
    }

    /// A custom video codec with the given engine name.
    pub fn custom(codec: &str) -> (r: VideoCodec)
        ensures
            r matches VideoCodec::Custom(s) && s@ == codec@,
    {
        VideoCodec::Custom(String::from_str(codec))
    }

    /// Whether the selection re-encodes the stream.
    pub fn requires_encoding(&self) -> (r: bool)
        ensures
            r == !(self matches VideoCodec::Copy || self matches VideoCodec::NoStream),
    {
        match self {
            VideoCodec::Copy => false,
            VideoCodec::NoStream => false,
            _ => true,
        }
    }

    /// The codec a name denotes; unknown names become custom codecs.
    pub fn from_name(s: &str) -> (r: VideoCodec)
        ensures
            r == VideoCodec::video_codec_of(s@) || (VideoCodec::video_codec_of(s@) matches
                VideoCodec::Custom(_) && r matches VideoCodec::Custom(c) && c@ == s@),
    {
        if crate::strutil::str_eq(s, "libx264") || crate::strutil::str_eq(s, "h264") {
            VideoCodec::H264
        } else if crate::strutil::str_eq(s, "libx265") || crate::strutil::str_eq(s, "h265")
            || crate::strutil::str_eq(s, "hevc") {
            VideoCodec::H265
        } else if crate::strutil::str_eq(s, "libvpx") || crate::strutil::str_eq(s, "vp8") {
            VideoCodec::VP8
        } else if crate::strutil::str_eq(s, "libvpx-vp9") || crate::strutil::str_eq(s, "vp9") {
            VideoCodec::VP9
        } else if crate::strutil::str_eq(s, "libaom-av1") || crate::strutil::str_eq(s, "av1") {
            VideoCodec::AV1
        } else if crate::strutil::str_eq(s, "mjpeg") {
            VideoCodec::MJPEG
        } else if crate::strutil::str_eq(s, "png") {
            VideoCodec::PNG
        } else if crate::strutil::str_eq(s, "jpeg") {
            VideoCodec::JPEG
        } else if crate::strutil::str_eq(s, "copy") {
            VideoCodec::Copy
        } else if crate::strutil::str_eq(s, "none") {
            VideoCodec::NoStream
        } else {
            VideoCodec::Custom(String::from_str(s))
        }
    }

    /// The codec a name denotes; the custom case stands for any unknown
    /// name.
    pub open spec fn video_codec_of(s: Seq<char>) -> VideoCodec {
        if s == "libx264"@ || s == "h264"@ {
            VideoCodec::H264
        } else if s == "libx265"@ || s == "h265"@ || s == "hevc"@ {
            VideoCodec::H265
        } else if s == "libvpx"@ || s == "vp8"@ {
            VideoCodec::VP8
        } else if s == "libvpx-vp9"@ || s == "vp9"@ {
            VideoCodec::VP9
        } else if s == "libaom-av1"@ || s == "av1"@ {
            VideoCodec::AV1
        } else if s == "mjpeg"@ {
            VideoCodec::MJPEG
        } else if s == "png"@ {
            VideoCodec::PNG
        } else if s == "jpeg"@ {
            VideoCodec::JPEG
        } else if s == "copy"@ {
            VideoCodec::Copy
        } else if s == "none"@ {
            VideoCodec::NoStream
        } else {
            VideoCodec::Custom(arbitrary())
        }
    }
}

impl From<&str> for VideoCodec {
    /// Build a codec from its engine or common name.
    fn from(s: &str) -> (r: VideoCodec) {
        VideoCodec::from_name(s)
    }
}

impl vstd::std_specs::convert::FromSpecImpl<&str> for VideoCodec {
    open spec fn obeys_from_spec() -> bool {
        false
    }

    open spec fn from_spec(s: &str) -> VideoCodec {
        VideoCodec::video_codec_of(s@)
    }
}

impl AudioCodec {
    /// The engine name of an audio codec.
    pub open spec fn name_view(self) -> Seq<char> {
        match self {
            AudioCodec::AAC => "aac"@,
            AudioCodec::MP3 => "libmp3lame"@,
            AudioCodec::AC3 => "ac3"@,
            AudioCodec::Opus => "libopus"@,
            AudioCodec::Vorbis => "libvorbis"@,
            AudioCodec::FLAC => "flac"@,
            AudioCodec::PCM => "pcm_s16le"@,
            AudioCodec::Copy => "copy"@,
            AudioCodec::NoStream => "none"@,
            AudioCodec::Custom(s) => s@,
        }
    }

    /// The engine codec string.
    pub fn as_str(&self) -> (r: &str)
        ensures
            r@ == self.name_view(),
    {
        match self {
            AudioCodec::AAC => "aac",
            AudioCodec::MP3 => "libmp3lame",
            AudioCodec::AC3 => "ac3",
            AudioCodec::Opus => "libopus",
            AudioCodec::Vorbis => "libvorbis",
            AudioCodec::FLAC => "flac",
            AudioCodec::PCM => "pcm_s16le",
            AudioCodec::Copy => "copy",
            AudioCodec::NoStream => "none",
            AudioCodec::Custom(s) => s.as_str(),
        }
    }

    /// A custom audio codec with the given engine name.
    pub fn custom(codec: &str) -> (r: AudioCodec)
        ensures
            r matches AudioCodec::Custom(s) && s@ == codec@,
    {
        AudioCodec::Custom(String::from_str(codec))
    }

    /// Whether the selection re-encodes the stream.
    pub fn requires_encoding(&self) -> (r: bool)
        ensures
            r == !(self matches AudioCodec::Copy || self matches AudioCodec::NoStream),
    {
        match self {
            AudioCodec::Copy => false,
            AudioCodec::NoStream => false,
            _ => true,
        }
    }

    /// The codec a name denotes; the custom case stands for any unknown
    /// name.
    pub open spec fn audio_codec_of(s: Seq<char>) -> AudioCodec {
        if s == "aac"@ {
            AudioCodec::AAC
        } else if s == "libmp3lame"@ || s == "mp3"@ {
            AudioCodec::MP3
        } else if s == "ac3"@ {
            AudioCodec::AC3
        } else if s == "libopus"@ || s == "opus"@ {
            AudioCodec::Opus
        } else if s == "libvorbis"@ || s == "vorbis"@ {
            AudioCodec::Vorbis
        } else if s == "flac"@ {
            AudioCodec::FLAC
        } else if s == "pcm_s16le"@ || s == "pcm"@ {
            AudioCodec::PCM
        } else if s == "copy"@ {
            AudioCodec::Copy
        } else if s == "none"@ {
            AudioCodec::NoStream
        } else {
            AudioCodec::Custom(arbitrary())
        }
    }

    /// The codec a name denotes; unknown names become custom codecs.
    pub fn from_name(s: &str) -> (r: AudioCodec)
        ensures
            r == AudioCodec::audio_codec_of(s@) || (AudioCodec::audio_codec_of(s@) matches
                AudioCodec::Custom(_) && r matches AudioCodec::Custom(c) && c@ == s@),
    {
        if crate::strutil::str_eq(s, "aac") {
            AudioCodec::AAC
        } else if crate::strutil::str_eq(s, "libmp3lame") || crate::strutil::str_eq(s, "mp3") {
            AudioCodec::MP3
        } else if crate::strutil::str_eq(s, "ac3") {
            AudioCodec::AC3
        } else if crate::strutil::str_eq(s, "libopus") || crate::strutil::str_eq(s, "opus") {
            AudioCodec::Opus
        } else if crate::strutil::str_eq(s, "libvorbis") || crate::strutil::str_eq(s, "vorbis") {
            AudioCodec::Vorbis
        } else if crate::strutil::str_eq(s, "flac") {
            AudioCodec::FLAC
        } else if crate::strutil::str_eq(s, "pcm_s16le") || crate::strutil::str_eq(s, "pcm") {
            AudioCodec::PCM
        } else if crate::strutil::str_eq(s, "copy") {
            AudioCodec::Copy
        } else if crate::strutil::str_eq(s, "none") {
            AudioCodec::NoStream
        } else {
            AudioCodec::Custom(String::from_str(s))
        }
    }
}

impl From<&str> for AudioCodec {
    /// Build a codec from its engine or common name.
    fn from(s: &str) -> (r: AudioCodec) {
        AudioCodec::from_name(s)
    }
}

impl vstd::std_specs::convert::FromSpecImpl<&str> for AudioCodec {
    open spec fn obeys_from_spec() -> bool {
        false
    }

    open spec fn from_spec(s: &str) -> AudioCodec {
        AudioCodec::audio_codec_of(s@)
    }
}

impl Format {
    /// The engine name of a format.
    pub open spec fn name_view(self) -> Seq<char> {
        match self {
            Format::Mp4 => "mp4"@,
            Format::Avi => "avi"@,
            Format::Mkv => "matroska"@,
            Format::Webm => "webm"@,
            Format::Mov => "mov"@,
            Format::Flv => "flv"@,
            Format::Mp3 => "mp3"@,
            Format::Aac => "aac"@,
            Format::Wav => "wav"@,
            Format::Jpeg => "image2"@,
            Format::Png => "image2"@,
            Format::Hls => "hls"@,
            Format::Mpegts => "mpegts"@,
            Format::Image2 => "image2"@,
            Format::Custom(s) => s@,
        }
    }

    /// The typical file extension of a format.
    pub open spec fn extension_view(self) -> Seq<char> {
        match self {
            Format::Mp4 => "mp4"@,
            Format::Avi => "avi"@,
            Format::Mkv => "mkv"@,
            Format::Webm => "webm"@,
            Format::Mov => "mov"@,
            Format::Flv => "flv"@,
            Format::Mp3 => "mp3"@,
            Format::Aac => "aac"@,
            Format::Wav => "wav"@,
            Format::Jpeg => "jpg"@,
            Format::Png => "png"@,
            Format::Hls => "m3u8"@,
            Format::Mpegts => "ts"@,
            Format::Image2 => "jpg"@,
            Format::Custom(_) => ""@,
        }
    }

    /// The engine format string.
    pub fn as_str(&self) -> (r: &str)
        ensures
            r@ == self.name_view(),
    {
        match self {
            Format::Mp4 => "mp4",
            Format::Avi => "avi",
            Format::Mkv => "matroska",
            Format::Webm => "webm",
            Format::Mov => "mov",
            Format::Flv => "flv",
            Format::Mp3 => "mp3",
            Format::Aac => "aac",
            Format::Wav => "wav",
            Format::Jpeg => "image2",
            Format::Png => "image2",
            Format::Hls => "hls",
            Format::Mpegts => "mpegts",
            Format::Image2 => "image2",
            Format::Custom(s) => s.as_str(),
        }
    }

    /// A custom format with the given engine name.
    pub fn custom(format: &str) -> (r: Format)
        ensures
            r matches Format::Custom(s) && s@ == format@,
    {
        Format::Custom(String::from_str(format))
    }

    /// The typical file extension for this format.
    pub fn extension(&self) -> (r: &str)
        ensures
            r@ == self.extension_view(),
    {
        match self {
            Format::Mp4 => "mp4",
            Format::Avi => "avi",
            Format::Mkv => "mkv",
            Format::Webm => "webm",
            Format::Mov => "mov",
            Format::Flv => "flv",
            Format::Mp3 => "mp3",
            Format::Aac => "aac",
            Format::Wav => "wav",
            Format::Jpeg => "jpg",
            Format::Png => "png",
            Format::Hls => "m3u8",
            Format::Mpegts => "ts",
            Format::Image2 => "jpg",
            Format::Custom(_) => "",
        }
    }

    /// Whether the format is a video container.
    pub fn is_video(&self) -> (r: bool)
        ensures
            r == (self matches Format::Mp4 || self matches Format::Avi || self matches Format::Mkv
                || self matches Format::Webm || self matches Format::Mov || self matches
            Format::Flv || self matches Format::Hls || self matches Format::Mpegts),
    {
        match self {
            Format::Mp4 => true,
            Format::Avi => true,
            Format::Mkv => true,
            Format::Webm => true,
            Format::Mov => true,
            Format::Flv => true,
            Format::Hls => true,
            Format::Mpegts => true,
            _ => false,
        }
    }

    /// Whether the format is audio-only.
    pub fn is_audio(&self) -> (r: bool)
        ensures
            r == (self matches Format::Mp3 || self matches Format::Aac || self matches
            Format::Wav),
    {
        match self {
            Format::Mp3 => true,
            Format::Aac => true,
            Format::Wav => true,
            _ => false,
        }
    }

    /// Whether the format is image-based.
    pub fn is_image(&self) -> (r: bool)
        ensures
            r == (self matches Format::Jpeg || self matches Format::Png || self matches
            Format::Image2),
    {
        match self {
            Format::Jpeg => true,
            Format::Png => true,
            Format::Image2 => true,
            _ => false,
        }
    }

    /// The format a name denotes; the custom case stands for any unknown
    /// name.
    pub open spec fn format_of(s: Seq<char>) -> Format {
        if s == "mp4"@ {
            Format::Mp4
        } else if s == "avi"@ {
            Format::Avi
        } else if s == "matroska"@ || s == "mkv"@ {
            Format::Mkv
        } else if s == "webm"@ {
            Format::Webm
        } else if s == "mov"@ {
            Format::Mov
        } else if s == "flv"@ {
            Format::Flv
        } else if s == "mp3"@ {
            Format::Mp3
        } else if s == "aac"@ {
            Format::Aac
        } else if s == "wav"@ {
            Format::Wav
        } else if s == "jpeg"@ || s == "jpg"@ {
            Format::Jpeg
        } else if s == "png"@ {
            Format::Png
        } else if s == "hls"@ {
            Format::Hls
        } else if s == "mpegts"@ || s == "ts"@ {
            Format::Mpegts
        } else if s == "image2"@ {
            Format::Image2
        } else {
            Format::Custom(arbitrary())
        }
    }

    /// The format a name denotes; unknown names become custom formats.
    pub fn from_name(s: &str) -> (r: Format)
        ensures
            r == Format::format_of(s@) || (Format::format_of(s@) matches Format::Custom(_)
                && r matches Format::Custom(c) && c@ == s@),
    {
        if crate::strutil::str_eq(s, "mp4") {
            Format::Mp4
        } else if crate::strutil::str_eq(s, "avi") {
            Format::Avi
        } else if crate::strutil::str_eq(s, "matroska") || crate::strutil::str_eq(s, "mkv") {
            Format::Mkv
        } else if crate::strutil::str_eq(s, "webm") {
            Format::Webm
        } else if crate::strutil::str_eq(s, "mov") {
            Format::Mov
        } else if crate::strutil::str_eq(s, "flv") {
            Format::Flv
        } else if crate::strutil::str_eq(s, "mp3") {
            Format::Mp3
        } else if crate::strutil::str_eq(s, "aac") {
            Format::Aac
        } else if crate::strutil::str_eq(s, "wav") {
            Format::Wav
        } else if crate::strutil::str_eq(s, "jpeg") || crate::strutil::str_eq(s, "jpg") {
            Format::Jpeg
        } else if crate::strutil::str_eq(s, "png") {
            Format::Png
        } else if crate::strutil::str_eq(s, "hls") {
            Format::Hls
        } else if crate::strutil::str_eq(s, "mpegts") || crate::strutil::str_eq(s, "ts") {
            Format::Mpegts
        } else if crate::strutil::str_eq(s, "image2") {
            Format::Image2
        } else {
            Format::Custom(String::from_str(s))
        }
    }
}

impl From<&str> for Format {
    /// Build a format from its engine or common name.
    fn from(s: &str) -> (r: Format) {
        Format::from_name(s)
    }
}

impl vstd::std_specs::convert::FromSpecImpl<&str> for Format {
    open spec fn obeys_from_spec() -> bool {
        false
    }

    open spec fn from_spec(s: &str) -> Format {
        Format::format_of(s@)
    }
}

impl PixelFormat {
    /// The engine name of a pixel format.
    pub open spec fn name_view(self) -> Seq<char> {
        match self {
            PixelFormat::Yuv420p => "yuv420p"@,
            PixelFormat::Yuv422p => "yuv422p"@,
            PixelFormat::Yuv444p => "yuv444p"@,
            PixelFormat::Rgb24 => "rgb24"@,
            PixelFormat::Rgba => "rgba"@,
            PixelFormat::Bgr24 => "bgr24"@,
            PixelFormat::Bgra => "bgra"@,
            PixelFormat::Custom(s) => s@,
        }
    }

    /// The engine pixel-format string.
    pub fn as_str(&self) -> (r: &str)
        ensures
            r@ == self.name_view(),
    {
        match self {
            PixelFormat::Yuv420p => "yuv420p",
            PixelFormat::Yuv422p => "yuv422p",
            PixelFormat::Yuv444p => "yuv444p",
            PixelFormat::Rgb24 => "rgb24",
            PixelFormat::Rgba => "rgba",
            PixelFormat::Bgr24 => "bgr24",
            PixelFormat::Bgra => "bgra",
            PixelFormat::Custom(s) => s.as_str(),
        }
    }

    /// A custom pixel format with the given engine name.
    pub fn custom(format: &str) -> (r: PixelFormat)
        ensures
            r matches PixelFormat::Custom(s) && s@ == format@,
    {
        PixelFormat::Custom(String::from_str(format))
    }

    /// The pixel format a name denotes; the custom case stands for any
    /// unknown name.
    pub open spec fn pixel_format_of(s: Seq<char>) -> PixelFormat {
        if s == "yuv420p"@ {
            PixelFormat::Yuv420p
        } else if s == "yuv422p"@ {
            PixelFormat::Yuv422p
        } else if s == "yuv444p"@ {
            PixelFormat::Yuv444p
        } else if s == "rgb24"@ {
            PixelFormat::Rgb24
        } else if s == "rgba"@ {
            PixelFormat::Rgba
        } else if s == "bgr24"@ {
            PixelFormat::Bgr24
        } else if s == "bgra"@ {
            PixelFormat::Bgra
        } else {
            PixelFormat::Custom(arbitrary())
        }
    }

    /// The pixel format a name denotes; unknown names become custom.
    pub fn from_name(s: &str) -> (r: PixelFormat)
        ensures
            r == PixelFormat::pixel_format_of(s@) || (PixelFormat::pixel_format_of(s@) matches
                PixelFormat::Custom(_) && r matches PixelFormat::Custom(c) && c@ == s@),
    {
        if crate::strutil::str_eq(s, "yuv420p") {
            PixelFormat::Yuv420p
        } else if crate::strutil::str_eq(s, "yuv422p") {
            PixelFormat::Yuv422p
        } else if crate::strutil::str_eq(s, "yuv444p") {
            PixelFormat::Yuv444p
        } else if crate::strutil::str_eq(s, "rgb24") {
            PixelFormat::Rgb24
        } else if crate::strutil::str_eq(s, "rgba") {
            PixelFormat::Rgba
        } else if crate::strutil::str_eq(s, "bgr24") {
            PixelFormat::Bgr24
        } else if crate::strutil::str_eq(s, "bgra") {
            PixelFormat::Bgra
        } else {
            PixelFormat::Custom(String::from_str(s))
        }
    }
}

impl From<&str> for PixelFormat {
    /// Build a pixel format from its engine name.
    fn from(s: &str) -> (r: PixelFormat) {
        PixelFormat::from_name(s)
    }
}

impl vstd::std_specs::convert::FromSpecImpl<&str> for PixelFormat {
    open spec fn obeys_from_spec() -> bool {
        false
    }

    open spec fn from_spec(s: &str) -> PixelFormat {
        PixelFormat::pixel_format_of(s@)
    }
}

} // verus!
