//! Engine input bindings.

use vstd::prelude::*;

use crate::stream::Stream;
use crate::strutil::{milli_dec_view, string_views};
use crate::strutil;

verus! {

/// One input of the engine command: a source with optional seek, duration
/// and demuxer options. Times are in milliseconds.
#[derive(Debug, Clone, PartialEq, Eq)]
pub struct Input {
    /// Input index within the command.
    pub idx: u32,
    /// Source path or URL.
    pub path: String,
    /// Seek position in milliseconds, when set.
    pub start_time: Option<u32>,
    /// Duration to read in milliseconds, when set.
    pub duration: Option<u32>,
    /// Frame rate for image sequences, when set.
    pub framerate: Option<String>,
    /// Demuxer format, when set.
    pub format: Option<String>,
    /// Additional input options, in order.
    pub options: Vec<(String, String)>,
}

/// The option argument pairs of an input, flattened in order.
pub open spec fn option_args_view(opts: Seq<(String, String)>) -> Seq<Seq<char>>
    decreases opts.len(),
{
    if opts.len() == 0 {
        Seq::empty()
    } else {
        option_args_view(opts.drop_last()) + seq![
            "-"@ + opts.last().0@,
            opts.last().1@,
        ]
    }
}

/// The command-line arguments of an input, in order: format, frame rate,
/// seek, duration, custom options, then the source.
pub open spec fn input_args_view(i: Input) -> Seq<Seq<char>> {
    (match i.format {
        Some(f) => seq!["-f"@, f@],
        None => Seq::empty(),
    }) + (match i.framerate {
        Some(f) => seq!["-r"@, f@],
        None => Seq::empty(),
    }) + (match i.start_time {
        Some(t) => seq!["-ss"@, milli_dec_view(t as nat)],
        None => Seq::empty(),
    }) + (match i.duration {
        Some(d) => seq!["-t"@, milli_dec_view(d as nat)],
        None => Seq::empty(),
    }) + option_args_view(i.options@) + seq!["-i"@, i.path@]
}

impl Input {
    /// Bind a source without trimming.
    pub fn with_simple(path: &str) -> (r: Input)
        ensures
            r.idx == 0,
            r.path@ == path@,
            r.start_time is None,
            r.duration is None,
            r.framerate is None,
            r.format is None,
            r.options@.len() == 0,
    {
        Input {
            idx: 0,
            path: String::from_str(path),
            start_time: None,
            duration: None,
            framerate: None,
            format: None,
            options: Vec::new(),
        }
    }

    /// Bind a source trimmed to a window, in milliseconds.
    pub fn with_time(start_time: u32, duration: u32, path: &str) -> (r: Input)
        ensures
            r.idx == 0,
            r.path@ == path@,
            r.start_time == Some(start_time),
            r.duration == Some(duration),
            r.framerate is None,
            r.format is None,
            r.options@.len() == 0,
    {
        Input {
            idx: 0,
            path: String::from_str(path),
            start_time: Some(start_time),
            duration: Some(duration),
            framerate: None,
            format: None,
            options: Vec::new(),
        }
    }

    /// Bind a concat list file.
    pub fn with_concat(concat_file: &str) -> (r: Input)
        ensures
            r.idx == 0,
            r.path@ == concat_file@,
            r.format matches Some(f) && f@ == "concat"@,
            r.options@.len() == 1,
            r.options@[0].0@ == "safe"@ && r.options@[0].1@ == "0"@,
    {
        let mut options: Vec<(String, String)> = Vec::new();
        options.push((String::from_str("safe"), String::from_str("0")));
        Input {
            idx: 0,
            path: String::from_str(concat_file),
            start_time: None,
            duration: None,
            framerate: None,
            format: Some(String::from_str("concat")),
            options,
        }
    }

    /// Set the input index.
    pub fn set_idx(&mut self, idx: u32)
        ensures
            *final(self) == (Input { idx, ..*old(self) }),
    {
        self.idx = idx;
    }

    /// Set the seek position, in milliseconds.
    pub fn start_time(self, time: u32) -> (r: Input)
        ensures
            r == (Input { start_time: Some(time), ..self }),
    {
        Input { start_time: Some(time), ..self }
    }

    /// Set the duration to read, in milliseconds.
    pub fn duration(self, duration: u32) -> (r: Input)
        ensures
            r == (Input { duration: Some(duration), ..self }),
    {
        Input { duration: Some(duration), ..self }
    }

    /// Set the frame rate for image sequences.
    pub fn framerate(self, fps: &str) -> (r: Input)
        ensures
            r == (Input { framerate: r.framerate, ..self }),
            r.framerate matches Some(f) && f@ == fps@,
    {
        Input { framerate: Some(String::from_str(fps)), ..self }
    }

    /// Set the demuxer format.
    pub fn format(self, format: &str) -> (r: Input)
        ensures
            r == (Input { format: r.format, ..self }),
            r.format matches Some(f) && f@ == format@,
    {
        Input { format: Some(String::from_str(format)), ..self }
    }

    /// Append a custom input option.
    pub fn option(self, key: &str, value: &str) -> (r: Input)
        ensures
            r == (Input { options: r.options, ..self }),
            r.options@.len() == self.options@.len() + 1,
            r.options@.drop_last() == self.options@,
            r.options@.last().0@ == key@ && r.options@.last().1@ == value@,
    {
        let mut options = self.options;
        options.push((String::from_str(key), String::from_str(value)));
        let r = Input { options, ..self };
        assert(r.options@.drop_last() =~= self.options@);
        r
    }

    /// The video stream of this input.
    pub fn v(&self) -> (r: Stream)
        requires
            self.idx <= i32::MAX,
        ensures
            r == (Stream {
                input_index: self.idx as i32,
                stream_type: crate::stream::StreamType::Video,
                may_not: false,
                stream_index: None,
                label: None,
            }),
    {
        Stream::video(self.idx as i32)
    }

    /// The video stream of this input, tolerating its absence.
    pub fn may_v(&self) -> (r: Stream)
        requires
            self.idx <= i32::MAX,
        ensures
            r == (Stream {
                input_index: self.idx as i32,
                stream_type: crate::stream::StreamType::Video,
                may_not: true,
                stream_index: None,
                label: None,
            }),
    {
        Stream::may_video(self.idx as i32)
    }

    /// The audio stream of this input.
    pub fn a(&self) -> (r: Stream)
        requires
            self.idx <= i32::MAX,
        ensures
            r == (Stream {
                input_index: self.idx as i32,
                stream_type: crate::stream::StreamType::Audio,
                may_not: false,
                stream_index: None,
                label: None,
            }),
    {
        Stream::audio(self.idx as i32)
    }

    /// The audio stream of this input, tolerating its absence.
    pub fn may_a(&self) -> (r: Stream)
        requires
            self.idx <= i32::MAX,
        ensures
            r == (Stream {
                input_index: self.idx as i32,
                stream_type: crate::stream::StreamType::Audio,
                may_not: true,
                stream_index: None,
                label: None,
            }),
    {
        Stream::may_audio(self.idx as i32)
    }

    /// The command-line arguments for this input.
    #[verifier::rlimit(60)]
    #[verifier::spinoff_prover]
    pub fn to_args(&self) -> (r: Vec<String>)
        ensures
            string_views(r@) == input_args_view(*self),
    {
        let mut args: Vec<String> = Vec::new();
        if let Some(format) = &self.format {
            args.push(String::from_str("-f"));
            args.push(format.clone());
        }
        if let Some(fps) = &self.framerate {
            args.push(String::from_str("-r"));
            args.push(fps.clone());
        }
        if let Some(start_time) = self.start_time {
            args.push(String::from_str("-ss"));
            args.push(strutil::milli_to_decimal_string(start_time as u64));
        }
        if let Some(duration) = self.duration {
            args.push(String::from_str("-t"));
            args.push(strutil::milli_to_decimal_string(duration as u64));
        }
        let ghost pre = string_views(args@);
        let n = self.options.len();
        let mut i: usize = 0;
        while i < n
            invariant
                n == self.options@.len(),
                0 <= i <= n,
                string_views(args@) == pre + option_args_view(self.options@.subrange(0, i as int)),
            decreases n - i,
        {
            proof {
                let t = self.options@.subrange(0, i + 1);
                assert(t.drop_last() =~= self.options@.subrange(0, i as int));
                assert(t.last() == self.options@[i as int]);
            }
            let mut key = String::from_str("-");
            key.append(self.options[i].0.as_str());
            let ghost pre_a = args@;
            args.push(key);
            proof {
                strutil::lemma_string_views_push(pre_a, args@);
            }
            let ghost pre_b = args@;
            args.push(self.options[i].1.clone());
            proof {
                strutil::lemma_string_views_push(pre_b, args@);
                assert(string_views(args@) =~= pre + option_args_view(
                    self.options@.subrange(0, i + 1),
                ));
            }
            i = i + 1;
        }
        assert(self.options@.subrange(0, n as int) =~= self.options@);
        let ghost pre_i = args@;
        args.push(String::from_str("-i"));
        proof {
            strutil::lemma_string_views_push(pre_i, args@);
        }
        let ghost pre_p = args@;
        args.push(self.path.clone());
        proof {
            strutil::lemma_string_views_push(pre_p, args@);
            assert(string_views(args@) =~= input_args_view(*self));
        }
        args
    }

    /// An equal copy of the input.
    pub fn clone_input(&self) -> (r: Input)
        ensures
            r.idx == self.idx,
            r.path == self.path,
            r.start_time == self.start_time,
            r.duration == self.duration,
            r.framerate == self.framerate,
            r.format == self.format,
            r.options@ == self.options@,
            input_args_view(r) == input_args_view(*self),
    {
        let mut options: Vec<(String, String)> = Vec::new();
        let n = self.options.len();
        let mut i: usize = 0;
        while i < n
            invariant
                n == self.options@.len(),
                0 <= i <= n,
                options@ == self.options@.subrange(0, i as int),
            decreases n - i,
        {
            options.push((self.options[i].0.clone(), self.options[i].1.clone()));
            assert(options@ =~= self.options@.subrange(0, i + 1));
            i = i + 1;
        }
        assert(self.options@.subrange(0, n as int) =~= self.options@);
        Input {
            idx: self.idx,
            path: self.path.clone(),
            start_time: self.start_time,
            duration: self.duration,
            framerate: match &self.framerate {
                Some(f) => Some(f.clone()),
                None => None,
            },
            format: match &self.format {
                Some(f) => Some(f.clone()),
                None => None,
            },
            options,
        }
    }
}

} // verus!
