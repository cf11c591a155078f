//! Engine output configuration.

use vstd::prelude::*;

use crate::codec::{AudioCodec, Format, PixelFormat, VideoCodec};
use crate::error::CluvError;
use crate::kvlist::KvList;
use crate::stream::Stream;
use crate::strutil::{int_str, milli_dec_view, string_views};
use crate::strutil;

verus! {

/// One output of the engine command: a destination with stream mappings,
/// codecs and encoding options. Times are in milliseconds.
#[derive(Debug, Clone, PartialEq, Eq)]
pub struct Output {
    /// Destination path.
    pub path: String,
    /// Video codec, when set.
    pub video_codec: Option<VideoCodec>,
    /// Audio codec, when set.
    pub audio_codec: Option<AudioCodec>,
    /// Container format, when set.
    pub format: Option<Format>,
    /// Pixel format, when set.
    pub pixel_format: Option<PixelFormat>,
    /// Video bitrate in kbps, when set.
    pub video_bitrate: Option<i32>,
    /// Audio bitrate in kbps, when set.
    pub audio_bitrate: Option<i32>,
    /// Constant rate factor, when set.
    pub crf: Option<i32>,
    /// Output frame rate, when set.
    pub framerate: Option<String>,
    /// Thread count, when set.
    pub threads: Option<i32>,
    /// Output seek position in milliseconds, when set.
    pub start_time: Option<u32>,
    /// Output duration in milliseconds, when set.
    pub duration: Option<u32>,
    /// Maximum video frames, when set.
    pub max_frames: Option<i32>,
    /// Stream mappings, in order.
    pub mappings: Vec<String>,
    /// Metadata entries.
    pub metadata: KvList,
    /// Custom options, in order.
    pub options: Vec<(String, String)>,
    /// Container movflags, when set.
    pub mov_flags: Option<String>,
    /// Muxing queue bound, when set.
    pub max_muxing_queue_size: Option<i32>,
    /// Keyframe interval, when set.
    pub gop_size: Option<i32>,
    /// Frame sync mode, when set.
    pub vsync: Option<String>,
    /// Playlist segment length in seconds, when set.
    pub hls_time: Option<i32>,
    /// Playlist segment name pattern, when set.
    pub hls_segment_filename: Option<String>,
    /// Playlist segment type, when set.
    pub hls_segment_type: Option<String>,
    /// Playlist flags, when set.
    pub hls_flags: Option<String>,
    /// Playlist type, when set.
    pub hls_playlist_type: Option<String>,
}

/// The mapping argument pairs of an output, flattened in order.
pub open spec fn mapping_args_view(maps: Seq<String>) -> Seq<Seq<char>>
    decreases maps.len(),
{
    if maps.len() == 0 {
        Seq::empty()
    } else {
        mapping_args_view(maps.drop_last()) + seq!["-map"@, maps.last()@]
    }
}

/// The metadata argument pairs of an output, flattened in order.
pub open spec fn metadata_args_view(entries: Seq<(String, String)>) -> Seq<Seq<char>>
    decreases entries.len(),
{
    if entries.len() == 0 {
        Seq::empty()
    } else {
        metadata_args_view(entries.drop_last()) + seq![
            "-metadata"@,
            entries.last().0@ + "="@ + entries.last().1@,
        ]
    }
}

/// The custom option argument pairs of an output, flattened in order.
pub open spec fn custom_args_view(opts: Seq<(String, String)>) -> Seq<Seq<char>>
    decreases opts.len(),
{
    if opts.len() == 0 {
        Seq::empty()
    } else {
        custom_args_view(opts.drop_last()) + seq![
            "-"@ + opts.last().0@,
            opts.last().1@,
        ]
    }
}

/// The codec and rate arguments of an output.
pub open spec fn codec_args_view(o: Output) -> Seq<Seq<char>> {
    (match o.video_codec {
        Some(c) => seq!["-c:v"@, c.name_view()],
        None => Seq::empty(),
    }) + (match o.audio_codec {
        Some(c) => seq!["-c:a"@, c.name_view()],
        None => Seq::empty(),
    }) + (match o.pixel_format {
        Some(p) => seq!["-pix_fmt"@, p.name_view()],
        None => Seq::empty(),
    }) + (match o.video_bitrate {
        Some(b) => seq!["-b:v"@, int_str(b as int) + "k"@],
        None => Seq::empty(),
    }) + (match o.audio_bitrate {
        Some(b) => seq!["-b:a"@, int_str(b as int) + "k"@],
        None => Seq::empty(),
    }) + (match o.crf {
        Some(c) => seq!["-crf"@, int_str(c as int)],
        None => Seq::empty(),
    })
}

/// The timing and format arguments of an output.
pub open spec fn timing_args_view(o: Output) -> Seq<Seq<char>> {
    (match o.framerate {
        Some(f) => seq!["-r"@, f@],
        None => Seq::empty(),
    }) + (match o.threads {
        Some(t) => seq!["-threads"@, int_str(t as int)],
        None => Seq::empty(),
    }) + (match o.start_time {
        Some(t) => seq!["-ss"@, milli_dec_view(t as nat)],
        None => Seq::empty(),
    }) + (match o.duration {
        Some(d) => seq!["-t"@, milli_dec_view(d as nat)],
        None => Seq::empty(),
    }) + (match o.max_frames {
        Some(m) => seq!["-vframes"@, int_str(m as int)],
        None => Seq::empty(),
    }) + (match o.format {
        Some(f) => seq!["-f"@, f.name_view()],
        None => Seq::empty(),
    })
}

/// The container arguments of an output.
pub open spec fn container_args_view(o: Output) -> Seq<Seq<char>> {
    (match o.mov_flags {
        Some(f) => seq!["-movflags"@, f@],
        None => Seq::empty(),
    }) + (match o.max_muxing_queue_size {
        Some(s) => seq!["-max_muxing_queue_size"@, int_str(s as int)],
        None => Seq::empty(),
    }) + (match o.gop_size {
        Some(g) => seq!["-g"@, int_str(g as int)],
        None => Seq::empty(),
    }) + (match o.vsync {
        Some(v) => seq!["-vsync"@, v@],
        None => Seq::empty(),
    })
}

/// The playlist arguments of an output.
pub open spec fn hls_args_view(o: Output) -> Seq<Seq<char>> {
    (match o.hls_time {
        Some(t) => seq!["-hls_time"@, int_str(t as int)],
        None => Seq::empty(),
    }) + (match o.hls_segment_filename {
        Some(f) => seq!["-hls_segment_filename"@, f@],
        None => Seq::empty(),
    }) + (match o.hls_segment_type {
        Some(t) => seq!["-hls_segment_type"@, t@],
        None => Seq::empty(),
    }) + (match o.hls_flags {
        Some(f) => seq!["-hls_flags"@, f@],
        None => Seq::empty(),
    }) + (match o.hls_playlist_type {
        Some(t) => seq!["-hls_playlist_type"@, t@],
        None => Seq::empty(),
    })
}

/// The command-line arguments of an output, in a fixed order ending with
/// the destination.
pub open spec fn output_args_view(o: Output) -> Seq<Seq<char>> {
    mapping_args_view(o.mappings@) + codec_args_view(o) + timing_args_view(o)
        + container_args_view(o) + hls_args_view(o) + metadata_args_view(o.metadata.entries@)
        + custom_args_view(o.options@) + seq![o.path@]
}

impl Output {
    /// Create an output with only a destination.
    pub fn new(path: &str) -> (r: Output)
        ensures
            r.path@ == path@,
            r.video_codec is None && r.audio_codec is None && r.format is None
                && r.pixel_format is None,
            r.video_bitrate is None && r.audio_bitrate is None && r.crf is None,
            r.framerate is None && r.threads is None && r.start_time is None
                && r.duration is None && r.max_frames is None,
            r.mappings@.len() == 0,
            r.metadata.entries@.len() == 0,
            r.options@.len() == 0,
            r.mov_flags is None && r.max_muxing_queue_size is None && r.gop_size is None
                && r.vsync is None,
            r.hls_time is None && r.hls_segment_filename is None && r.hls_segment_type is None
                && r.hls_flags is None && r.hls_playlist_type is None,
    {
        Output {
            path: String::from_str(path),
            video_codec: None,
            audio_codec: None,
            format: None,
            pixel_format: None,
            video_bitrate: None,
            audio_bitrate: None,
            crf: None,
            framerate: None,
            threads: None,
            start_time: None,
            duration: None,
            max_frames: None,
            mappings: Vec::new(),
            metadata: KvList::new(),
            options: Vec::new(),
            mov_flags: None,
            max_muxing_queue_size: None,
            gop_size: None,
            vsync: None,
            hls_time: None,
            hls_segment_filename: None,
            hls_segment_type: None,
            hls_flags: None,
            hls_playlist_type: None,
        }
    }

    /// Create an output with only a destination; see `new`.
    pub fn with_simple(path: &str) -> (r: Output)
        ensures
            r.path@ == path@,
            r.mappings@.len() == 0,
            r.video_codec is None && r.audio_codec is None && r.crf is None
                && r.video_bitrate is None && r.audio_bitrate is None && r.mov_flags is None,
    {
        Output::new(path)
    }

    /// Select the video codec.
    pub fn video_codec(self, codec: VideoCodec) -> (r: Output)
        ensures
            r == (Output { video_codec: Some(codec), ..self }),
    {
        Output { video_codec: Some(codec), ..self }
    }

    /// Select the audio codec.
    pub fn audio_codec(self, codec: AudioCodec) -> (r: Output)
        ensures
            r == (Output { audio_codec: Some(codec), ..self }),
    {
        Output { audio_codec: Some(codec), ..self }
    }

    /// Select the container format.
    pub fn format(self, format: Format) -> (r: Output)
        ensures
            r == (Output { format: Some(format), ..self }),
    {
        Output { format: Some(format), ..self }
    }

    /// Select the pixel format.
    pub fn pixel_format(self, format: PixelFormat) -> (r: Output)
        ensures
            r == (Output { pixel_format: Some(format), ..self }),
    {
        Output { pixel_format: Some(format), ..self }
    }

    /// Set the video bitrate in kbps.
    pub fn video_bitrate(self, bitrate: i32) -> (r: Output)
        ensures
            r == (Output { video_bitrate: Some(bitrate), ..self }),
    {
        Output { video_bitrate: Some(bitrate), ..self }
    }

    /// Set the audio bitrate in kbps.
    pub fn audio_bitrate(self, bitrate: i32) -> (r: Output)
        ensures
            r == (Output { audio_bitrate: Some(bitrate), ..self }),
    {
        Output { audio_bitrate: Some(bitrate), ..self }
    }

    /// Set the constant rate factor.
    pub fn crf(self, crf: i32) -> (r: Output)
        ensures
            r == (Output { crf: Some(crf), ..self }),
    {
        Output { crf: Some(crf), ..self }
    }

    /// Set the output frame rate.
    pub fn framerate(self, fps: &str) -> (r: Output)
        ensures
            r == (Output { framerate: r.framerate, ..self }),
            r.framerate matches Some(f) && f@ == fps@,
    {
        Output { framerate: Some(String::from_str(fps)), ..self }
    }

    /// Set the thread count.
    pub fn threads(self, count: i32) -> (r: Output)
        ensures
            r == (Output { threads: Some(count), ..self }),
    {
        Output { threads: Some(count), ..self }
    }

    /// Set the output seek position, in milliseconds.
    pub fn start_time(self, time: u32) -> (r: Output)
        ensures
            r == (Output { start_time: Some(time), ..self }),
    {
        Output { start_time: Some(time), ..self }
    }

    /// Set the output duration, in milliseconds.
    pub fn duration(self, duration: u32) -> (r: Output)
        ensures
            r == (Output { duration: Some(duration), ..self }),
    {
        Output { duration: Some(duration), ..self }
    }

    /// Set the maximum number of video frames.
    pub fn max_frames(self, frames: i32) -> (r: Output)
        ensures
            r == (Output { max_frames: Some(frames), ..self }),
    {
        Output { max_frames: Some(frames), ..self }
    }

    /// Append a stream mapping.
    pub fn map(self, mapping: &str) -> (r: Output)
        ensures
            r == (Output { mappings: r.mappings, ..self }),
            r.mappings@.len() == self.mappings@.len() + 1,
            r.mappings@.drop_last() == self.mappings@,
            r.mappings@.last()@ == mapping@,
    {
        let mut mappings = self.mappings;
        mappings.push(String::from_str(mapping));
        let r = Output { mappings, ..self };
        assert(r.mappings@.drop_last() =~= self.mappings@);
        r
    }

    /// Append a stream mapping from a selector.
    pub fn map_stream(self, stream: &Stream) -> (r: Output)
        ensures
            r == (Output { mappings: r.mappings, ..self }),
            r.mappings@.len() == self.mappings@.len() + 1,
            r.mappings@.drop_last() == self.mappings@,
            r.mappings@.last()@ == stream.specifier_view(),
    {
        let mut mappings = self.mappings;
        mappings.push(stream.specifier());
        let r = Output { mappings, ..self };
        assert(r.mappings@.drop_last() =~= self.mappings@);
        r
    }

    /// Set a metadata entry.
    pub fn metadata(self, key: &str, value: &str) -> (r: Output)
        ensures
            r == (Output { metadata: r.metadata, ..self }),
            r.metadata.entries@.len() >= 1,
            r.metadata.entries@.last().0@ == key@ && r.metadata.entries@.last().1@ == value@,
    {
        let mut metadata = self.metadata;
        metadata.insert(key, value);
        Output { metadata, ..self }
    }

    /// Append a custom option.
    pub fn option(self, key: &str, value: &str) -> (r: Output)
        ensures
            r == (Output { options: r.options, ..self }),
            r.options@.len() == self.options@.len() + 1,
            r.options@.drop_last() == self.options@,
            r.options@.last().0@ == key@ && r.options@.last().1@ == value@,
    {
        let mut options = self.options;
        options.push((String::from_str(key), String::from_str(value)));
        let r = Output { options, ..self };
        assert(r.options@.drop_last() =~= self.options@);
        r
    }

    /// Set the container movflags.
    pub fn mov_flags(self, flags: &str) -> (r: Output)
        ensures
            r == (Output { mov_flags: r.mov_flags, ..self }),
            r.mov_flags matches Some(f) && f@ == flags@,
    {
        Output { mov_flags: Some(String::from_str(flags)), ..self }
    }

    /// Set the muxing queue bound.
    pub fn max_muxing_queue_size(self, size: i32) -> (r: Output)
        ensures
            r == (Output { max_muxing_queue_size: Some(size), ..self }),
    {
        Output { max_muxing_queue_size: Some(size), ..self }
    }

    /// Set the keyframe interval.
    pub fn gop_size(self, size: i32) -> (r: Output)
        ensures
            r == (Output { gop_size: Some(size), ..self }),
    {
        Output { gop_size: Some(size), ..self }
    }

    /// Set the frame sync mode.
    pub fn vsync(self, method: &str) -> (r: Output)
        ensures
            r == (Output { vsync: r.vsync, ..self }),
            r.vsync matches Some(v) && v@ == method@,
    {
        Output { vsync: Some(String::from_str(method)), ..self }
    }

    /// Set the playlist segment length, in seconds.
    pub fn hls_time(self, time: i32) -> (r: Output)
        ensures
            r == (Output { hls_time: Some(time), ..self }),
    {
        Output { hls_time: Some(time), ..self }
    }

    /// Set the playlist segment name pattern.
    pub fn hls_segment_filename(self, filename: &str) -> (r: Output)
        ensures
            r == (Output { hls_segment_filename: r.hls_segment_filename, ..self }),
            r.hls_segment_filename matches Some(f) && f@ == filename@,
    {
        Output { hls_segment_filename: Some(String::from_str(filename)), ..self }
    }

    /// Set the playlist segment type.
    pub fn hls_segment_type(self, segment_type: &str) -> (r: Output)
        ensures
            r == (Output { hls_segment_type: r.hls_segment_type, ..self }),
            r.hls_segment_type matches Some(t) && t@ == segment_type@,
    {
        Output { hls_segment_type: Some(String::from_str(segment_type)), ..self }
    }

    /// Set the playlist flags.
    pub fn hls_flags(self, flags: &str) -> (r: Output)
        ensures
            r == (Output { hls_flags: r.hls_flags, ..self }),
            r.hls_flags matches Some(f) && f@ == flags@,
    {
        Output { hls_flags: Some(String::from_str(flags)), ..self }
    }

    /// Set the playlist type.
    pub fn hls_playlist_type(self, playlist_type: &str) -> (r: Output)
        ensures
            r == (Output { hls_playlist_type: r.hls_playlist_type, ..self }),
            r.hls_playlist_type matches Some(t) && t@ == playlist_type@,
    {
        Output { hls_playlist_type: Some(String::from_str(playlist_type)), ..self }
    }

    /// The command-line arguments for this output.
    pub fn to_args(&self) -> (r: Vec<String>)
        ensures
            string_views(r@) == output_args_view(*self),
    {
        let mut args: Vec<String> = Vec::new();
        let nm = self.mappings.len();
        let mut i: usize = 0;
        while i < nm
            invariant
                nm == self.mappings@.len(),
                0 <= i <= nm,
                string_views(args@) == mapping_args_view(self.mappings@.subrange(0, i as int)),
            decreases nm - i,
        {
            proof {
                let t = self.mappings@.subrange(0, i + 1);
                assert(t.drop_last() =~= self.mappings@.subrange(0, i as int));
                assert(t.last() == self.mappings@[i as int]);
            }
            strutil::push_arg(&mut args, "-map");
            strutil::push_arg_string(&mut args, self.mappings[i].clone());
            assert(string_views(args@) =~= mapping_args_view(
                self.mappings@.subrange(0, i + 1),
            ));
            i = i + 1;
        }
        assert(self.mappings@.subrange(0, nm as int) =~= self.mappings@);

        self.push_codec_args(&mut args);
        self.push_timing_args(&mut args);
        self.push_container_args(&mut args);
        self.push_hls_args(&mut args);
        self.push_metadata_args(&mut args);
        self.push_custom_args(&mut args);
        strutil::push_arg_string(&mut args, self.path.clone());
        assert(string_views(args@) =~= output_args_view(*self));
        args
    }

    /// Append the codec and rate arguments.
    #[verifier::rlimit(50)]
    #[verifier::spinoff_prover]
    fn push_codec_args(&self, args: &mut Vec<String>)
        ensures
            string_views(final(args)@) == string_views(old(args)@) + codec_args_view(*self),
    {
        let ghost p = string_views(args@);
        if let Some(codec) = &self.video_codec {
            strutil::push_arg(args, "-c:v");
            strutil::push_arg(args, codec.as_str());
        }
        if let Some(codec) = &self.audio_codec {
            strutil::push_arg(args, "-c:a");
            strutil::push_arg(args, codec.as_str());
        }
        if let Some(pix_fmt) = &self.pixel_format {
            strutil::push_arg(args, "-pix_fmt");
            strutil::push_arg(args, pix_fmt.as_str());
        }
        if let Some(bitrate) = self.video_bitrate {
            strutil::push_arg(args, "-b:v");
            let mut b = strutil::i32_to_string(bitrate);
            b.append("k");
            strutil::push_arg_string(args, b);
        }
        if let Some(bitrate) = self.audio_bitrate {
            strutil::push_arg(args, "-b:a");
            let mut b = strutil::i32_to_string(bitrate);
            b.append("k");
            strutil::push_arg_string(args, b);
        }
        if let Some(crf) = self.crf {
            strutil::push_arg(args, "-crf");
            strutil::push_arg_string(args, strutil::i32_to_string(crf));
        }
        assert(string_views(args@) =~= p + codec_args_view(*self));
    }

    /// Append the timing and format arguments.
    #[verifier::rlimit(50)]
    #[verifier::spinoff_prover]
    fn push_timing_args(&self, args: &mut Vec<String>)
        ensures
            string_views(final(args)@) == string_views(old(args)@) + timing_args_view(*self),
    {
        let ghost p = string_views(args@);
        if let Some(fps) = &self.framerate {
            strutil::push_arg(args, "-r");
            strutil::push_arg_string(args, fps.clone());
        }
        if let Some(threads) = self.threads {
            strutil::push_arg(args, "-threads");
            strutil::push_arg_string(args, strutil::i32_to_string(threads));
        }
        if let Some(start_time) = self.start_time {
            strutil::push_arg(args, "-ss");
            strutil::push_arg_string(args, strutil::milli_to_decimal_string(start_time as u64));
        }
        if let Some(duration) = self.duration {
            strutil::push_arg(args, "-t");
            strutil::push_arg_string(args, strutil::milli_to_decimal_string(duration as u64));
        }
        if let Some(frames) = self.max_frames {
            strutil::push_arg(args, "-vframes");
            strutil::push_arg_string(args, strutil::i32_to_string(frames));
        }
        if let Some(format) = &self.format {
            strutil::push_arg(args, "-f");
            strutil::push_arg(args, format.as_str());
        }
        assert(string_views(args@) =~= p + timing_args_view(*self));
    }

    /// Append the container arguments.
    #[verifier::rlimit(50)]
    #[verifier::spinoff_prover]
    fn push_container_args(&self, args: &mut Vec<String>)
        ensures
            string_views(final(args)@) == string_views(old(args)@) + container_args_view(*self),
    {
        let ghost p = string_views(args@);
        if let Some(flags) = &self.mov_flags {
            strutil::push_arg(args, "-movflags");
            strutil::push_arg_string(args, flags.clone());
        }
        if let Some(size) = self.max_muxing_queue_size {
            strutil::push_arg(args, "-max_muxing_queue_size");
            strutil::push_arg_string(args, strutil::i32_to_string(size));
        }
        if let Some(gop) = self.gop_size {
            strutil::push_arg(args, "-g");
            strutil::push_arg_string(args, strutil::i32_to_string(gop));
        }
        if let Some(vsync) = &self.vsync {
            strutil::push_arg(args, "-vsync");
            strutil::push_arg_string(args, vsync.clone());
        }
        assert(string_views(args@) =~= p + container_args_view(*self));
    }

    /// Append the playlist arguments.
    #[verifier::rlimit(50)]
    #[verifier::spinoff_prover]
    fn push_hls_args(&self, args: &mut Vec<String>)
        ensures
            string_views(final(args)@) == string_views(old(args)@) + hls_args_view(*self),
    {
        let ghost p = string_views(args@);
        if let Some(time) = self.hls_time {
            strutil::push_arg(args, "-hls_time");
            strutil::push_arg_string(args, strutil::i32_to_string(time));
        }
        if let Some(filename) = &self.hls_segment_filename {
            strutil::push_arg(args, "-hls_segment_filename");
            strutil::push_arg_string(args, filename.clone());
        }
        if let Some(segment_type) = &self.hls_segment_type {
            strutil::push_arg(args, "-hls_segment_type");
            strutil::push_arg_string(args, segment_type.clone());
        }
        if let Some(flags) = &self.hls_flags {
            strutil::push_arg(args, "-hls_flags");
            strutil::push_arg_string(args, flags.clone());
        }
        if let Some(playlist_type) = &self.hls_playlist_type {
            strutil::push_arg(args, "-hls_playlist_type");
            strutil::push_arg_string(args, playlist_type.clone());
        }
        assert(string_views(args@) =~= p + hls_args_view(*self));
    }

    /// Append the metadata arguments.
    fn push_metadata_args(&self, args: &mut Vec<String>)
        ensures
            string_views(final(args)@) == string_views(old(args)@) + metadata_args_view(
                self.metadata.entries@,
            ),
    {
        let ghost p = string_views(args@);
        let ne = self.metadata.entries.len();
        let mut k: usize = 0;
        while k < ne
            invariant
                ne == self.metadata.entries@.len(),
                0 <= k <= ne,
                string_views(args@) == p + metadata_args_view(
                    self.metadata.entries@.subrange(0, k as int),
                ),
            decreases ne - k,
        {
            proof {
                let t = self.metadata.entries@.subrange(0, k + 1);
                assert(t.drop_last() =~= self.metadata.entries@.subrange(0, k as int));
                assert(t.last() == self.metadata.entries@[k as int]);
            }
            strutil::push_arg(args, "-metadata");
            let mut kv = self.metadata.entries[k].0.clone();
            kv.append("=");
            kv.append(self.metadata.entries[k].1.as_str());
            strutil::push_arg_string(args, kv);
            assert(string_views(args@) =~= p + metadata_args_view(
                self.metadata.entries@.subrange(0, k + 1),
            ));
            k = k + 1;
        }
        assert(self.metadata.entries@.subrange(0, ne as int) =~= self.metadata.entries@);
    }

    /// Append the custom option arguments.
    fn push_custom_args(&self, args: &mut Vec<String>)
        ensures
            string_views(final(args)@) == string_views(old(args)@) + custom_args_view(
                self.options@,
            ),
    {
        let ghost p = string_views(args@);
        let no = self.options.len();
        let mut k: usize = 0;
        while k < no
            invariant
                no == self.options@.len(),
                0 <= k <= no,
                string_views(args@) == p + custom_args_view(self.options@.subrange(0, k as int)),
            decreases no - k,
        {
            proof {
                let t = self.options@.subrange(0, k + 1);
                assert(t.drop_last() =~= self.options@.subrange(0, k as int));
                assert(t.last() == self.options@[k as int]);
            }
            let mut key = String::from_str("-");
            key.append(self.options[k].0.as_str());
            strutil::push_arg_string(args, key);
            strutil::push_arg_string(args, self.options[k].1.clone());
            assert(string_views(args@) =~= p + custom_args_view(
                self.options@.subrange(0, k + 1),
            ));
            k = k + 1;
        }
        assert(self.options@.subrange(0, no as int) =~= self.options@);
    }
}

/// A builder for outputs; `build` fails when no destination was given.
#[derive(Debug, Clone, PartialEq, Eq)]
pub struct OutputBuilder {
    /// Destination path, when given.
    pub path: Option<String>,
    /// Video codec, when set.
    pub video_codec: Option<VideoCodec>,
    /// Audio codec, when set.
    pub audio_codec: Option<AudioCodec>,
    /// Container format, when set.
    pub format: Option<Format>,
    /// Constant rate factor, when set.
    pub crf: Option<i32>,
    /// Stream mappings, in order.
    pub mappings: Vec<String>,
    /// Metadata entries.
    pub metadata: KvList,
}

impl OutputBuilder {
    /// Create an empty builder.
    pub fn new() -> (r: OutputBuilder)
        ensures
            r.path is None,
            r.video_codec is None && r.audio_codec is None && r.format is None && r.crf is None,
            r.mappings@.len() == 0,
            r.metadata.entries@.len() == 0,
    {
        OutputBuilder {
            path: None,
            video_codec: None,
            audio_codec: None,
            format: None,
            crf: None,
            mappings: Vec::new(),
            metadata: KvList::new(),
        }
    }

    /// Set the destination path.
    pub fn path(self, path: &str) -> (r: OutputBuilder)
        ensures
            r == (OutputBuilder { path: r.path, ..self }),
            r.path matches Some(p) && p@ == path@,
    {
        OutputBuilder { path: Some(String::from_str(path)), ..self }
    }

    /// Select the video codec.
    pub fn video_codec(self, codec: VideoCodec) -> (r: OutputBuilder)
        ensures
            r == (OutputBuilder { video_codec: Some(codec), ..self }),
    {
        OutputBuilder { video_codec: Some(codec), ..self }
    }

    /// Select the audio codec.
    pub fn audio_codec(self, codec: AudioCodec) -> (r: OutputBuilder)
        ensures
            r == (OutputBuilder { audio_codec: Some(codec), ..self }),
    {
        OutputBuilder { audio_codec: Some(codec), ..self }
    }

    /// Select the container format.
    pub fn format(self, format: Format) -> (r: OutputBuilder)
        ensures
            r == (OutputBuilder { format: Some(format), ..self }),
    {
        OutputBuilder { format: Some(format), ..self }
    }

    /// Set the constant rate factor.
    pub fn crf(self, crf: i32) -> (r: OutputBuilder)
        ensures
            r == (OutputBuilder { crf: Some(crf), ..self }),
    {
        OutputBuilder { crf: Some(crf), ..self }
    }

    /// Append a stream mapping.
    pub fn map(self, mapping: &str) -> (r: OutputBuilder)
        ensures
            r == (OutputBuilder { mappings: r.mappings, ..self }),
            r.mappings@.len() == self.mappings@.len() + 1,
            r.mappings@.drop_last() == self.mappings@,
            r.mappings@.last()@ == mapping@,
    {
        let mut mappings = self.mappings;
        mappings.push(String::from_str(mapping));
        let r = OutputBuilder { mappings, ..self };
        assert(r.mappings@.drop_last() =~= self.mappings@);
        r
    }

    /// Set a metadata entry.
    pub fn metadata(self, key: &str, value: &str) -> (r: OutputBuilder)
        ensures
            r == (OutputBuilder { metadata: r.metadata, ..self }),
            r.metadata.entries@.len() >= 1,
            r.metadata.entries@.last().0@ == key@ && r.metadata.entries@.last().1@ == value@,
    {
        let mut metadata = self.metadata;
        metadata.insert(key, value);
        OutputBuilder { metadata, ..self }
    }

    /// Build the output; fails without a destination.
    pub fn build(self) -> (r: Result<Output, CluvError>)
        ensures
            r is Ok <==> self.path is Some,
            r matches Ok(o) ==> {
                &&& self.path matches Some(p) && o.path == p
                &&& o.video_codec == self.video_codec
                &&& o.audio_codec == self.audio_codec
                &&& o.format == self.format
                &&& o.crf == self.crf
                &&& o.mappings@ == self.mappings@
                &&& o.metadata == self.metadata
            },
            r matches Err(e) ==> e matches CluvError::MissingParam(m) && m@ == "output path"@,
    {
        let path = match self.path {
            Some(p) => p,
            None => {
                return Err(CluvError::missing_param("output path"));
            },
        };
        Ok(
            Output {
                path,
                video_codec: self.video_codec,
                audio_codec: self.audio_codec,
                format: self.format,
                pixel_format: None,
                video_bitrate: None,
                audio_bitrate: None,
                crf: self.crf,
                framerate: None,
                threads: None,
                start_time: None,
                duration: None,
                max_frames: None,
                mappings: self.mappings,
                metadata: self.metadata,
                options: Vec::new(),
                mov_flags: None,
                max_muxing_queue_size: None,
                gop_size: None,
                vsync: None,
                hls_time: None,
                hls_segment_filename: None,
                hls_segment_type: None,
                hls_flags: None,
                hls_playlist_type: None,
            },
        )
    }
}

impl Default for OutputBuilder {
    /// The default builder is empty.
    fn default() -> (r: OutputBuilder)
        ensures
            r.path is None,
            r.mappings@.len() == 0,
    {
        OutputBuilder::new()
    }
}

} // verus!
