//! The metadata probe: request building and the report it returns.
//!
//! Running the probe is the embedder's concern; this module owns the
//! request arguments and the report structure that enrichment reads.

use vstd::prelude::*;

use crate::error::CluvError;
use crate::kvlist::KvList;
use crate::options::FFprobeOptions;
use crate::strutil::{parsed_seconds_millis, parsed_u32, parsed_u64, string_views};
use crate::strutil;

verus! {

/// A probe request under construction.
#[derive(Debug, Clone, PartialEq, Eq)]
pub struct FFprobe {
    /// Probe invocation options.
    pub options: FFprobeOptions,
    /// The source to probe, when set.
    pub input_file: Option<String>,
}

/// The probe report: an optional container record and the streams.
#[derive(Debug, Clone, PartialEq, Eq)]
pub struct MediaInfo {
    /// The container record, when reported.
    pub format: Option<FormatInfo>,
    /// The stream records, in order.
    pub streams: Vec<StreamInfo>,
}

/// The container record of a probe report.
#[derive(Debug, Clone, PartialEq, Eq)]
pub struct FormatInfo {
    /// Source name.
    pub filename: Option<String>,
    /// Number of streams.
    pub nb_streams: Option<i32>,
    /// Number of programs.
    pub nb_programs: Option<i32>,
    /// Container format name.
    pub format_name: Option<String>,
    /// Container format long name.
    pub format_long_name: Option<String>,
    /// Start time in seconds, as reported.
    pub start_time: Option<String>,
    /// Duration in seconds, as reported.
    pub duration: Option<String>,
    /// Size in bytes, as reported.
    pub size: Option<String>,
    /// Bitrate in bits per second, as reported.
    pub bit_rate: Option<String>,
    /// Probe confidence score.
    pub probe_score: Option<i32>,
    /// Container tags.
    pub tags: Option<KvList>,
}

/// One stream record of a probe report.
#[derive(Debug, Clone, PartialEq, Eq)]
pub struct StreamInfo {
    /// Stream index.
    pub index: i32,
    /// Codec name.
    pub codec_name: Option<String>,
    /// Codec long name.
    pub codec_long_name: Option<String>,
    /// Codec profile.
    pub profile: Option<String>,
    /// Stream kind: "video" or "audio".
    pub codec_type: Option<String>,
    /// Codec tag text.
    pub codec_tag_string: Option<String>,
    /// Codec tag.
    pub codec_tag: Option<String>,
    /// Width in pixels, for video streams.
    pub width: Option<i32>,
    /// Height in pixels, for video streams.
    pub height: Option<i32>,
    /// Coded width in pixels.
    pub coded_width: Option<i32>,
    /// Coded height in pixels.
    pub coded_height: Option<i32>,
    /// Closed captions flag.
    pub closed_captions: Option<i32>,
    /// Film grain flag.
    pub film_grain: Option<i32>,
    /// B-frame count.
    pub has_b_frames: Option<i32>,
    /// Sample aspect ratio text.
    pub sample_aspect_ratio: Option<String>,
    /// Display aspect ratio text.
    pub display_aspect_ratio: Option<String>,
    /// Pixel format name.
    pub pix_fmt: Option<String>,
    /// Codec level.
    pub level: Option<i32>,
    /// Color range name.
    pub color_range: Option<String>,
    /// Color space name.
    pub color_space: Option<String>,
    /// Color transfer name.
    pub color_transfer: Option<String>,
    /// Color primaries name.
    pub color_primaries: Option<String>,
    /// Chroma location name.
    pub chroma_location: Option<String>,
    /// Field order name.
    pub field_order: Option<String>,
    /// Reference frame count.
    pub refs: Option<i32>,
    /// AVC flag text.
    pub is_avc: Option<String>,
    /// NAL length size text.
    pub nal_length_size: Option<String>,
    /// Real frame rate as "NUM/DEN".
    pub r_frame_rate: Option<String>,
    /// Average frame rate as "NUM/DEN".
    pub avg_frame_rate: Option<String>,
    /// Time base as "NUM/DEN".
    pub time_base: Option<String>,
    /// Start presentation timestamp.
    pub start_pts: Option<i64>,
    /// Start time in seconds, as reported.
    pub start_time: Option<String>,
    /// Duration in time-base units.
    pub duration_ts: Option<i64>,
    /// Duration in seconds, as reported.
    pub duration: Option<String>,
    /// Bitrate in bits per second, as reported.
    pub bit_rate: Option<String>,
    /// Bits per raw sample, as reported.
    pub bits_per_raw_sample: Option<String>,
    /// Frame count, as reported.
    pub nb_frames: Option<String>,
    /// Read frame count, as reported.
    pub nb_read_frames: Option<String>,
    /// Read packet count, as reported.
    pub nb_read_packets: Option<String>,
    /// Stream tags.
    pub tags: Option<KvList>,
    /// Sample format name, for audio streams.
    pub sample_fmt: Option<String>,
    /// Sample rate in Hz, as reported, for audio streams.
    pub sample_rate: Option<String>,
    /// Channel count, for audio streams.
    pub channels: Option<i32>,
    /// Channel layout name.
    pub channel_layout: Option<String>,
    /// Bits per sample.
    pub bits_per_sample: Option<i32>,
    /// Initial padding.
    pub initial_padding: Option<i32>,
}

/// The probe request arguments: custom arguments, output selection, and
/// the source.
pub open spec fn probe_args_view(p: FFprobe) -> Seq<Seq<char>> {
    string_views(p.options.custom_args@) + (if p.options.json_format {
        seq!["-v"@, "quiet"@, "-print_format"@, "json"@]
    } else {
        Seq::empty()
    }) + (if p.options.show_format {
        seq!["-show_format"@]
    } else {
        Seq::empty()
    }) + (if p.options.show_streams {
        seq!["-show_streams"@]
    } else {
        Seq::empty()
    }) + (match p.input_file {
        Some(f) => seq![f@],
        None => Seq::empty(),
    })
}

impl FFprobe {
    /// Create a probe request with default options.
    pub fn new() -> (r: FFprobe)
        ensures
            r.options.binary_path@ == "ffprobe"@,
            r.options.json_format && r.options.show_streams && r.options.show_format,
            r.input_file is None,
    {
        FFprobe { options: FFprobeOptions::new(), input_file: None }
    }

    /// Replace the options.
    pub fn set_options(self, options: FFprobeOptions) -> (r: FFprobe)
        ensures
            r == (FFprobe { options, ..self }),
    {
        FFprobe { options, ..self }
    }

    /// Set the source to probe.
    pub fn input(self, file: &str) -> (r: FFprobe)
        ensures
            r == (FFprobe { input_file: r.input_file, ..self }),
            r.input_file matches Some(f) && f@ == file@,
    {
        FFprobe { input_file: Some(String::from_str(file)), ..self }
    }

    /// The command-line arguments for this request.
    pub fn build_args(&self) -> (r: Vec<String>)
        ensures
            string_views(r@) == probe_args_view(*self),
    {
        let mut args: Vec<String> = Vec::new();
        let nc = self.options.custom_args.len();
        let mut i: usize = 0;
        while i < nc
            invariant
                nc == self.options.custom_args@.len(),
                0 <= i <= nc,
                string_views(args@) == string_views(
                    self.options.custom_args@.subrange(0, i as int),
                ),
            decreases nc - i,
        {
            strutil::push_arg_string(&mut args, self.options.custom_args[i].clone());
            assert(string_views(args@) =~= string_views(
                self.options.custom_args@.subrange(0, i + 1),
            ));
            i = i + 1;
        }
        assert(self.options.custom_args@.subrange(0, nc as int) =~= self.options.custom_args@);
        if self.options.json_format {
            strutil::push_arg(&mut args, "-v");
            strutil::push_arg(&mut args, "quiet");
            strutil::push_arg(&mut args, "-print_format");
            strutil::push_arg(&mut args, "json");
        }
        if self.options.show_format {
            strutil::push_arg(&mut args, "-show_format");
        }
        if self.options.show_streams {
            strutil::push_arg(&mut args, "-show_streams");
        }
        if let Some(input) = &self.input_file {
            strutil::push_arg_string(&mut args, input.clone());
        }
        assert(string_views(args@) =~= probe_args_view(*self));
        args
    }
}

impl Default for FFprobe {
    /// The default request: see `new`.
    fn default() -> (r: FFprobe)
        ensures
            r.input_file is None,
    {
        FFprobe::new()
    }
}

/// Whether a stream record reports the given kind.
pub open spec fn has_codec_type(s: StreamInfo, kind: Seq<char>) -> bool {
    s.codec_type matches Some(t) && t@ == kind
}

/// The first stream of the given kind, when one exists.
pub open spec fn first_of_kind(streams: Seq<StreamInfo>, kind: Seq<char>) -> Option<StreamInfo>
    decreases streams.len(),
{
    if streams.len() == 0 {
        None
    } else if has_codec_type(streams.first(), kind) {
        Some(streams.first())
    } else {
        first_of_kind(streams.drop_first(), kind)
    }
}

/// A match with no earlier match is the first of its kind.
pub proof fn lemma_first_of_kind_found(streams: Seq<StreamInfo>, kind: Seq<char>, i: int)
    requires
        0 <= i < streams.len(),
        has_codec_type(streams[i], kind),
        forall|j: int| 0 <= j < i ==> !has_codec_type(streams[j], kind),
    ensures
        first_of_kind(streams, kind) == Some(streams[i]),
    decreases i,
{
    if i == 0 {
    } else {
        assert(!has_codec_type(streams[0], kind));
        lemma_first_of_kind_found(streams.drop_first(), kind, i - 1);
    }
}

/// With no match anywhere there is no first of the kind.
pub proof fn lemma_first_of_kind_absent(streams: Seq<StreamInfo>, kind: Seq<char>)
    requires
        forall|j: int| 0 <= j < streams.len() ==> !has_codec_type(streams[j], kind),
    ensures
        first_of_kind(streams, kind) is None,
    decreases streams.len(),
{
    if streams.len() > 0 {
        assert(!has_codec_type(streams[0], kind));
        lemma_first_of_kind_absent(streams.drop_first(), kind);
    }
}

impl MediaInfo {
    /// Find the first stream of the given kind.
    fn first_stream_of(&self, kind: &str) -> (r: Option<&StreamInfo>)
        ensures
            r is Some <==> first_of_kind(self.streams@, kind@) is Some,
            r matches Some(s) ==> first_of_kind(self.streams@, kind@) == Some(*s),
            r is Some <==> exists|i: int|
                0 <= i < self.streams@.len() && has_codec_type(
                    #[trigger] self.streams@[i],
                    kind@,
                ),
            r matches Some(s) ==> exists|i: int|
                {
                    &&& 0 <= i < self.streams@.len()
                    &&& has_codec_type(#[trigger] self.streams@[i], kind@)
                    &&& (forall|j: int|
                        0 <= j < i ==> !has_codec_type(self.streams@[j], kind@))
                    &&& *s == self.streams@[i]
                },
    {
        let n = self.streams.len();
        let mut i: usize = 0;
        while i < n
            invariant
                n == self.streams@.len(),
                0 <= i <= n,
                forall|j: int| 0 <= j < i ==> !has_codec_type(#[trigger] self.streams@[j], kind@),
            decreases n - i,
        {
            let is_kind = match &self.streams[i].codec_type {
                Some(t) => strutil::str_eq(t.as_str(), kind),
                None => false,
            };
            if is_kind {
                proof {
                    lemma_first_of_kind_found(self.streams@, kind@, i as int);
                }
                return Some(&self.streams[i]);
            }
            i = i + 1;
        }
        proof {
            lemma_first_of_kind_absent(self.streams@, kind@);
        }
        None
    }

    /// Find the first video stream.
    pub fn first_video_stream(&self) -> (r: Option<&StreamInfo>)
        ensures
            r is Some <==> first_of_kind(self.streams@, "video"@) is Some,
            r matches Some(s) ==> first_of_kind(self.streams@, "video"@) == Some(*s),
            r is Some <==> exists|i: int|
                0 <= i < self.streams@.len() && has_codec_type(
                    #[trigger] self.streams@[i],
                    "video"@,
                ),
            r matches Some(s) ==> exists|i: int|
                {
                    &&& 0 <= i < self.streams@.len()
                    &&& has_codec_type(#[trigger] self.streams@[i], "video"@)
                    &&& (forall|j: int|
                        0 <= j < i ==> !has_codec_type(self.streams@[j], "video"@))
                    &&& *s == self.streams@[i]
                },
    {
        self.first_stream_of("video")
    }

    /// Find the first audio stream.
    pub fn first_audio_stream(&self) -> (r: Option<&StreamInfo>)
        ensures
            r is Some <==> first_of_kind(self.streams@, "audio"@) is Some,
            r matches Some(s) ==> first_of_kind(self.streams@, "audio"@) == Some(*s),
            r is Some <==> exists|i: int|
                0 <= i < self.streams@.len() && has_codec_type(
                    #[trigger] self.streams@[i],
                    "audio"@,
                ),
            r matches Some(s) ==> exists|i: int|
                {
                    &&& 0 <= i < self.streams@.len()
                    &&& has_codec_type(#[trigger] self.streams@[i], "audio"@)
                    &&& (forall|j: int|
                        0 <= j < i ==> !has_codec_type(self.streams@[j], "audio"@))
                    &&& *s == self.streams@[i]
                },
    {
        self.first_stream_of("audio")
    }

    /// The video streams, in order.
    pub fn video_streams(&self) -> (r: Vec<&StreamInfo>)
        ensures
            r@.len() <= self.streams@.len(),
            forall|k: int|
                0 <= k < r@.len() ==> has_codec_type(*(#[trigger] r@[k]), "video"@),
    {
        self.streams_of("video")
    }

    /// The audio streams, in order.
    pub fn audio_streams(&self) -> (r: Vec<&StreamInfo>)
        ensures
            r@.len() <= self.streams@.len(),
            forall|k: int|
                0 <= k < r@.len() ==> has_codec_type(*(#[trigger] r@[k]), "audio"@),
    {
        self.streams_of("audio")
    }

    /// The streams of one kind, in order.
    fn streams_of(&self, kind: &str) -> (r: Vec<&StreamInfo>)
        ensures
            r@.len() <= self.streams@.len(),
            forall|k: int|
                0 <= k < r@.len() ==> has_codec_type(*(#[trigger] r@[k]), kind@),
    {
        let n = self.streams.len();
        let mut r: Vec<&StreamInfo> = Vec::new();
        let mut i: usize = 0;
        while i < n
            invariant
                n == self.streams@.len(),
                0 <= i <= n,
                r@.len() <= i,
                forall|k: int|
                    0 <= k < r@.len() ==> has_codec_type(*(#[trigger] r@[k]), kind@),
            decreases n - i,
        {
            let is_kind = match &self.streams[i].codec_type {
                Some(t) => strutil::str_eq(t.as_str(), kind),
                None => false,
            };
            if is_kind {
                r.push(&self.streams[i]);
            }
            i = i + 1;
        }
        r
    }

    /// The container duration in milliseconds, rounded half up on the
    /// fourth fraction digit; `None` when absent or malformed.
    pub fn duration_millis(&self) -> (r: Option<u32>)
        ensures
            r == (match self.format {
                Some(f) => match f.duration {
                    Some(d) => parsed_seconds_millis(d@),
                    None => None::<u32>,
                },
                None => None::<u32>,
            }),
    {
        if let Some(format) = &self.format {
            if let Some(duration) = &format.duration {
                return strutil::parse_seconds_millis(duration.as_str());
            }
        }
        None
    }

    /// The container bitrate in bits per second; `None` when absent or
    /// malformed.
    pub fn bitrate(&self) -> (r: Option<i64>)
        ensures
            r == (match self.format {
                Some(f) => match f.bit_rate {
                    Some(br) => match parsed_u64(br@) {
                        Some(v) => if v <= i64::MAX {
                            Some(v as i64)
                        } else {
                            None::<i64>
                        },
                        None => None::<i64>,
                    },
                    None => None::<i64>,
                },
                None => None::<i64>,
            }),
    {
        if let Some(format) = &self.format {
            if let Some(br) = &format.bit_rate {
                if let Some(v) = strutil::parse_u64(br.as_str()) {
                    if v <= 0x7fff_ffff_ffff_ffff {
                        return Some(v as i64);
                    }
                }
            }
        }
        None
    }

    /// Whether the report holds a video stream.
    pub fn has_video(&self) -> (r: bool)
        ensures
            r == exists|i: int|
                0 <= i < self.streams@.len() && has_codec_type(
                    #[trigger] self.streams@[i],
                    "video"@,
                ),
    {
        self.first_video_stream().is_some()
    }

    /// Whether the report holds an audio stream.
    pub fn has_audio(&self) -> (r: bool)
        ensures
            r == exists|i: int|
                0 <= i < self.streams@.len() && has_codec_type(
                    #[trigger] self.streams@[i],
                    "audio"@,
                ),
    {
        self.first_audio_stream().is_some()
    }

    /// The resolution of the first video stream, when it reports one.
    pub fn video_resolution(&self) -> (r: Option<(i32, i32)>)
        ensures
            r == (match first_of_kind(self.streams@, "video"@) {
                Some(s) => match (s.width, s.height) {
                    (Some(w), Some(h)) => Some((w, h)),
                    _ => None::<(i32, i32)>,
                },
                None => None::<(i32, i32)>,
            }),
    {
        match self.first_video_stream() {
            Some(stream) => match (stream.width, stream.height) {
                (Some(w), Some(h)) => Some((w, h)),
                _ => None,
            },
            None => None,
        }
    }

    /// The frame-rate text of the first video stream.
    pub fn video_framerate(&self) -> (r: Option<String>)
        ensures
            r == (match first_of_kind(self.streams@, "video"@) {
                Some(s) => s.r_frame_rate,
                None => None::<String>,
            }),
    {
        match self.first_video_stream() {
            Some(stream) => match &stream.r_frame_rate {
                Some(fr) => Some(fr.clone()),
                None => None,
            },
            None => None,
        }
    }

    /// The sample rate of the first audio stream, when it parses.
    pub fn audio_sample_rate(&self) -> (r: Option<i32>)
        ensures
            r == (match first_of_kind(self.streams@, "audio"@) {
                Some(s) => match s.sample_rate {
                    Some(sr) => match parsed_u32(sr@) {
                        Some(v) => if v <= i32::MAX {
                            Some(v as i32)
                        } else {
                            None::<i32>
                        },
                        None => None::<i32>,
                    },
                    None => None::<i32>,
                },
                None => None::<i32>,
            }),
    {
        match self.first_audio_stream() {
            Some(stream) => match &stream.sample_rate {
                Some(sr) => match strutil::parse_u32(sr.as_str()) {
                    Some(v) if v <= 0x7fff_ffff => Some(v as i32),
                    _ => None,
                },
                None => None,
            },
            None => None,
        }
    }

    /// The channel count of the first audio stream.
    pub fn audio_channels(&self) -> (r: Option<i32>)
        ensures
            r == (match first_of_kind(self.streams@, "audio"@) {
                Some(s) => s.channels,
                None => None::<i32>,
            }),
    {
        match self.first_audio_stream() {
            Some(stream) => stream.channels,
            None => None,
        }
    }
}

impl StreamInfo {
    /// Whether this is a video stream.
    pub fn is_video(&self) -> (r: bool)
        ensures
            r == has_codec_type(*self, "video"@),
    {
        match &self.codec_type {
            Some(t) => strutil::str_eq(t.as_str(), "video"),
            None => false,
        }
    }

    /// Whether this is an audio stream.
    pub fn is_audio(&self) -> (r: bool)
        ensures
            r == has_codec_type(*self, "audio"@),
    {
        match &self.codec_type {
            Some(t) => strutil::str_eq(t.as_str(), "audio"),
            None => false,
        }
    }

    /// The stream duration in milliseconds; `None` when absent or
    /// malformed.
    pub fn duration_millis(&self) -> (r: Option<u32>)
        ensures
            r == (match self.duration {
                Some(d) => parsed_seconds_millis(d@),
                None => None::<u32>,
            }),
    {
        match &self.duration {
            Some(d) => strutil::parse_seconds_millis(d.as_str()),
            None => None,
        }
    }

    /// The stream bitrate in bits per second; `None` when absent or
    /// malformed.
    pub fn bitrate_int(&self) -> (r: Option<i64>)
        ensures
            r == (match self.bit_rate {
                Some(br) => match parsed_u64(br@) {
                    Some(v) => if v <= i64::MAX {
                        Some(v as i64)
                    } else {
                        None::<i64>
                    },
                    None => None::<i64>,
                },
                None => None::<i64>,
            }),
    {
        match &self.bit_rate {
            Some(br) => match strutil::parse_u64(br.as_str()) {
                Some(v) if v <= 0x7fff_ffff_ffff_ffff => Some(v as i64),
                _ => None,
            },
            None => None,
        }
    }

    /// The frame count; `None` when absent or malformed.
    pub fn frame_count(&self) -> (r: Option<i64>)
        ensures
            r == (match self.nb_frames {
                Some(nf) => match parsed_u64(nf@) {
                    Some(v) => if v <= i64::MAX {
                        Some(v as i64)
                    } else {
                        None::<i64>
                    },
                    None => None::<i64>,
                },
                None => None::<i64>,
            }),
    {
        match &self.nb_frames {
            Some(nf) => match strutil::parse_u64(nf.as_str()) {
                Some(v) if v <= 0x7fff_ffff_ffff_ffff => Some(v as i64),
                _ => None,
            },
            None => None,
        }
    }
}

} // verus!

verus! {

impl FormatInfo {
    /// A container record with nothing reported.
    pub fn blank() -> (r: FormatInfo)
        ensures
            r.filename is None && r.nb_streams is None && r.nb_programs is None,
            r.format_name is None && r.format_long_name is None,
            r.start_time is None && r.duration is None && r.size is None,
            r.bit_rate is None && r.probe_score is None && r.tags is None,
    {
        FormatInfo {
            filename: None,
            nb_streams: None,
            nb_programs: None,
            format_name: None,
            format_long_name: None,
            start_time: None,
            duration: None,
            size: None,
            bit_rate: None,
            probe_score: None,
            tags: None,
        }
    }
}

impl Default for FormatInfo {
    /// The default record reports nothing.
    fn default() -> (r: FormatInfo)
        ensures
            r.duration is None && r.bit_rate is None,
    {
        FormatInfo::blank()
    }
}

impl StreamInfo {
    /// A stream record with only an index.
    pub fn blank(index: i32) -> (r: StreamInfo)
        ensures
            r.index == index,
            r.codec_type is None && r.codec_name is None,
            r.width is None && r.height is None,
            r.r_frame_rate is None && r.bit_rate is None && r.duration is None,
            r.sample_rate is None && r.channels is None,
            r.nb_frames is None,
    {
        StreamInfo {
            index,
            codec_name: None,
            codec_long_name: None,
            profile: None,
            codec_type: None,
            codec_tag_string: None,
            codec_tag: None,
            width: None,
            height: None,
            coded_width: None,
            coded_height: None,
            closed_captions: None,
            film_grain: None,
            has_b_frames: None,
            sample_aspect_ratio: None,
            display_aspect_ratio: None,
            pix_fmt: None,
            level: None,
            color_range: None,
            color_space: None,
            color_transfer: None,
            color_primaries: None,
            chroma_location: None,
            field_order: None,
            refs: None,
            is_avc: None,
            nal_length_size: None,
            r_frame_rate: None,
            avg_frame_rate: None,
            time_base: None,
            start_pts: None,
            start_time: None,
            duration_ts: None,
            duration: None,
            bit_rate: None,
            bits_per_raw_sample: None,
            nb_frames: None,
            nb_read_frames: None,
            nb_read_packets: None,
            tags: None,
            sample_fmt: None,
            sample_rate: None,
            channels: None,
            channel_layout: None,
            bits_per_sample: None,
            initial_padding: None,
        }
    }
}

impl Default for StreamInfo {
    /// The default record has index 0 and reports nothing.
    fn default() -> (r: StreamInfo)
        ensures
            r.index == 0,
            r.codec_type is None,
    {
        StreamInfo::blank(0)
    }
}

} // verus!
