//! Stream selectors: references to engine inputs, typed streams and filter
//! outputs.

use vstd::prelude::*;

use crate::filter::Filter;
use crate::strutil::{all_digits, dec_str, dec_val, first_index_of, int_str};
use crate::strutil;

verus! {

/// Stream kinds.
#[derive(Debug, Clone, Copy, PartialEq, Eq, Structural)]
pub enum StreamType {
    /// Video stream.
    Video,
    /// Audio stream.
    Audio,
    /// Subtitle stream.
    Subtitle,
    /// Data stream.
    Data,
    /// Any stream kind.
    Any,
    /// A filter output.
    Filter,
}

/// A stream selector: an input index, a kind, and optionally a stream
/// index or a label.
#[derive(Debug, Clone, PartialEq, Eq)]
pub struct Stream {
    /// Input index, 0-based.
    pub input_index: i32,
    /// Stream kind.
    pub stream_type: StreamType,
    /// Whether the stream may be absent.
    pub may_not: bool,
    /// Stream index within the input, when selected.
    pub stream_index: Option<i32>,
    /// Filter label, when the selector names a filter output.
    pub label: Option<String>,
}

impl StreamType {
    /// The selector character of a stream kind, empty for kinds without
    /// one.
    pub open spec fn char_view(self) -> Seq<char> {
        match self {
            StreamType::Video => "v"@,
            StreamType::Audio => "a"@,
            StreamType::Subtitle => "s"@,
            StreamType::Data => "d"@,
            StreamType::Any => ""@,
            StreamType::Filter => ""@,
        }
    }

    /// The lowercase name of a stream kind.
    pub open spec fn tag_view(self) -> Seq<char> {
        match self {
            StreamType::Video => "video"@,
            StreamType::Audio => "audio"@,
            StreamType::Subtitle => "subtitle"@,
            StreamType::Data => "data"@,
            StreamType::Any => "any"@,
            StreamType::Filter => "filter"@,
        }
    }

    /// The selector character, when the kind has one.
    pub fn as_char(&self) -> (r: Option<char>)
        ensures
            r == (match self {
                StreamType::Video => Some('v'),
                StreamType::Audio => Some('a'),
                StreamType::Subtitle => Some('s'),
                StreamType::Data => Some('d'),
                StreamType::Any => None::<char>,
                StreamType::Filter => None::<char>,
            }),
    {
        match self {
            StreamType::Video => Some('v'),
            StreamType::Audio => Some('a'),
            StreamType::Subtitle => Some('s'),
            StreamType::Data => Some('d'),
            StreamType::Any => None,
            StreamType::Filter => None,
        }
    }

    /// The lowercase name of this stream kind.
    pub fn to_string(&self) -> (r: String)
        ensures
            r@ == self.tag_view(),
    {
        match self {
            StreamType::Video => String::from_str("video"),
            StreamType::Audio => String::from_str("audio"),
            StreamType::Subtitle => String::from_str("subtitle"),
            StreamType::Data => String::from_str("data"),
            StreamType::Any => String::from_str("any"),
            StreamType::Filter => String::from_str("filter"),
        }
    }
}

impl Stream {
    /// The specifier text of a selector: a label verbatim; otherwise the
    /// input index, the kind character, a "?" for optional streams, and
    /// the stream index when selected.
    pub open spec fn specifier_view(self) -> Seq<char> {
        let may = if self.may_not {
            "?"@
        } else {
            ""@
        };
        match self.label {
            Some(l) => l@,
            None => match self.stream_index {
                Some(idx) => if self.stream_type.char_view().len() == 0 {
                    int_str(self.input_index as int) + ":"@ + int_str(idx as int) + may
                } else {
                    int_str(self.input_index as int) + ":"@ + self.stream_type.char_view() + may
                        + ":"@ + int_str(idx as int)
                },
                None => if self.stream_type.char_view().len() == 0 {
                    int_str(self.input_index as int)
                } else {
                    int_str(self.input_index as int) + ":"@ + self.stream_type.char_view() + may
                },
            },
        }
    }

    /// Create a new stream selector.
    pub fn new(input_index: i32, stream_type: StreamType, may_not: bool) -> (r: Stream)
        ensures
            r == (Stream { input_index, stream_type, may_not, stream_index: None, label: None }),
    {
        Stream { input_index, stream_type, may_not, stream_index: None, label: None }
    }

    /// Select the video stream of an input.
    pub fn video(input_index: i32) -> (r: Stream)
        ensures
            r == (Stream {
                input_index,
                stream_type: StreamType::Video,
                may_not: false,
                stream_index: None,
                label: None,
            }),
    {
        Stream::new(input_index, StreamType::Video, false)
    }

    /// Select the video stream of an input, tolerating its absence.
    pub fn may_video(input_index: i32) -> (r: Stream)
        ensures
            r == (Stream {
                input_index,
                stream_type: StreamType::Video,
                may_not: true,
                stream_index: None,
                label: None,
            }),
    {
        Stream::new(input_index, StreamType::Video, true)
    }

    /// Select the audio stream of an input.
    pub fn audio(input_index: i32) -> (r: Stream)
        ensures
            r == (Stream {
                input_index,
                stream_type: StreamType::Audio,
                may_not: false,
                stream_index: None,
                label: None,
            }),
    {
        Stream::new(input_index, StreamType::Audio, false)
    }

    /// Select the audio stream of an input, tolerating its absence.
    pub fn may_audio(input_index: i32) -> (r: Stream)
        ensures
            r == (Stream {
                input_index,
                stream_type: StreamType::Audio,
                may_not: true,
                stream_index: None,
                label: None,
            }),
    {
        Stream::new(input_index, StreamType::Audio, true)
    }

    /// Select the subtitle stream of an input.
    pub fn subtitle(input_index: i32) -> (r: Stream)
        ensures
            r == (Stream {
                input_index,
                stream_type: StreamType::Subtitle,
                may_not: false,
                stream_index: None,
                label: None,
            }),
    {
        Stream::new(input_index, StreamType::Subtitle, false)
    }

    /// Select the data stream of an input.
    pub fn data(input_index: i32) -> (r: Stream)
        ensures
            r == (Stream {
                input_index,
                stream_type: StreamType::Data,
                may_not: false,
                stream_index: None,
                label: None,
            }),
    {
        Stream::new(input_index, StreamType::Data, false)
    }

    /// Select all streams of an input.
    pub fn any(input_index: i32) -> (r: Stream)
        ensures
            r == (Stream {
                input_index,
                stream_type: StreamType::Any,
                may_not: false,
                stream_index: None,
                label: None,
            }),
    {
        Stream::new(input_index, StreamType::Any, false)
    }

    /// Attach a filter label.
    pub fn with_label(self, label: String) -> (r: Stream)
        ensures
            r == (Stream { label: Some(label), ..self }),
    {
        Stream { label: Some(label), ..self }
    }

    /// Select a specific stream index within the input.
    pub fn with_index(self, index: i32) -> (r: Stream)
        ensures
            r == (Stream { stream_index: Some(index), ..self }),
    {
        Stream { stream_index: Some(index), ..self }
    }

    /// Select a video stream by index.
    pub fn video_index(input_index: i32, stream_index: i32) -> (r: Stream)
        ensures
            r == (Stream {
                input_index,
                stream_type: StreamType::Video,
                may_not: false,
                stream_index: Some(stream_index),
                label: None,
            }),
    {
        Stream::video(input_index).with_index(stream_index)
    }

    /// Select an audio stream by index.
    pub fn audio_index(input_index: i32, stream_index: i32) -> (r: Stream)
        ensures
            r == (Stream {
                input_index,
                stream_type: StreamType::Audio,
                may_not: false,
                stream_index: Some(stream_index),
                label: None,
            }),
    {
        Stream::audio(input_index).with_index(stream_index)
    }

    /// The specifier text for the engine command line.
    pub fn specifier(&self) -> (r: String)
        ensures
            r@ == self.specifier_view(),
    {
        let may: &str = if self.may_not {
            "?"
        } else {
            ""
        };
        if let Some(label) = &self.label {
            return label.clone();
        }
        let type_char: &str = match self.stream_type {
            StreamType::Video => "v",
            StreamType::Audio => "a",
            StreamType::Subtitle => "s",
            StreamType::Data => "d",
            StreamType::Any => "",
            StreamType::Filter => "",
        };
        let mut r = strutil::i32_to_string(self.input_index);
        if let Some(stream_index) = self.stream_index {
            r.append(":");
            if type_char.is_empty() {
                let idx = strutil::i32_to_string(stream_index);
                r.append(idx.as_str());
                r.append(may);
                assert(r@ =~= self.specifier_view());
            } else {
                r.append(type_char);
                r.append(may);
                r.append(":");
                let idx = strutil::i32_to_string(stream_index);
                r.append(idx.as_str());
                assert(r@ =~= self.specifier_view());
            }
        } else if !type_char.is_empty() {
            r.append(":");
            r.append(type_char);
            r.append(may);
            assert(r@ =~= self.specifier_view());
        } else {
            assert(r@ =~= self.specifier_view());
        }
        r
    }

    /// Select the first stream of a kind from an input.
    pub fn select(input_index: i32, stream_type: StreamType) -> (r: Stream)
        ensures
            r == (Stream { input_index, stream_type, may_not: false, stream_index: None, label: None }),
    {
        Stream::new(input_index, stream_type, false)
    }

    /// The specifier text; see `specifier`.
    pub fn to_string(&self) -> (r: String)
        ensures
            r@ == self.specifier_view(),
    {
        self.specifier()
    }

    /// The video stream of the first input.
    pub fn v0() -> (r: Stream)
        ensures
            r == (Stream {
                input_index: 0,
                stream_type: StreamType::Video,
                may_not: false,
                stream_index: None,
                label: None,
            }),
    {
        Stream::video(0)
    }

    /// The audio stream of the first input.
    pub fn a0() -> (r: Stream)
        ensures
            r == (Stream {
                input_index: 0,
                stream_type: StreamType::Audio,
                may_not: false,
                stream_index: None,
                label: None,
            }),
    {
        Stream::audio(0)
    }

    /// The video stream of an input.
    pub fn v(input_index: i32) -> (r: Stream)
        ensures
            r == (Stream {
                input_index,
                stream_type: StreamType::Video,
                may_not: false,
                stream_index: None,
                label: None,
            }),
    {
        Stream::video(input_index)
    }

    /// The audio stream of an input.
    pub fn a(input_index: i32) -> (r: Stream)
        ensures
            r == (Stream {
                input_index,
                stream_type: StreamType::Audio,
                may_not: false,
                stream_index: None,
                label: None,
            }),
    {
        Stream::audio(input_index)
    }

    /// All streams of an input.
    pub fn all(input_index: i32) -> (r: Stream)
        ensures
            r == (Stream {
                input_index,
                stream_type: StreamType::Any,
                may_not: false,
                stream_index: None,
                label: None,
            }),
    {
        Stream::any(input_index)
    }

    /// The best video stream of an input.
    pub fn best_video(input_index: i32) -> (r: Stream)
        ensures
            r == (Stream {
                input_index,
                stream_type: StreamType::Video,
                may_not: false,
                stream_index: None,
                label: None,
            }),
    {
        Stream::new(input_index, StreamType::Video, false)
    }

    /// The best audio stream of an input.
    pub fn best_audio(input_index: i32) -> (r: Stream)
        ensures
            r == (Stream {
                input_index,
                stream_type: StreamType::Audio,
                may_not: false,
                stream_index: None,
                label: None,
            }),
    {
        Stream::new(input_index, StreamType::Audio, false)
    }
}

/// Stream mapping helpers for output arguments.
pub struct StreamMapper;

impl StreamMapper {
    /// Map all streams of an input.
    pub fn map_all(input_index: i32) -> (r: Vec<String>)
        ensures
            r@.len() == 1,
            r@[0]@ == int_str(input_index as int),
    {
        let mut r: Vec<String> = Vec::new();
        r.push(strutil::i32_to_string(input_index));
        r
    }

    /// Map the video stream of an input.
    pub fn map_video(input_index: i32) -> (r: String)
        ensures
            r@ == int_str(input_index as int) + ":v"@,
    {
        let r = Stream::video(input_index).to_string();
        proof {
            reveal_strlit("");
            reveal_strlit(":");
            reveal_strlit("v");
            reveal_strlit(":v");
            assert(":"@ + "v"@ + ""@ =~= ":v"@);
            assert(r@ =~= int_str(input_index as int) + ":v"@);
        }
        r
    }

    /// Map the audio stream of an input.
    pub fn map_audio(input_index: i32) -> (r: String)
        ensures
            r@ == int_str(input_index as int) + ":a"@,
    {
        let r = Stream::audio(input_index).to_string();
        proof {
            reveal_strlit("");
            reveal_strlit(":");
            reveal_strlit("a");
            reveal_strlit(":a");
            assert(":"@ + "a"@ + ""@ =~= ":a"@);
            assert(r@ =~= int_str(input_index as int) + ":a"@);
        }
        r
    }

    /// Map a specific stream of an input by index.
    pub fn map_stream(input_index: i32, stream_index: i32) -> (r: String)
        ensures
            r@ == int_str(input_index as int) + ":"@ + int_str(stream_index as int),
    {
        let mut r = strutil::i32_to_string(input_index);
        r.append(":");
        let idx = strutil::i32_to_string(stream_index);
        r.append(idx.as_str());
        r
    }

    /// Map the video and audio streams of an input, in that order.
    pub fn map_video_audio(input_index: i32) -> (r: Vec<String>)
        ensures
            r@.len() == 2,
            r@[0]@ == int_str(input_index as int) + ":v"@,
            r@[1]@ == int_str(input_index as int) + ":a"@,
    {
        let mut r: Vec<String> = Vec::new();
        r.push(StreamMapper::map_video(input_index));
        r.push(StreamMapper::map_audio(input_index));
        r
    }
}

/// Anything that can stand for a stream selector.
pub trait Streamable {
    /// The stream selector this value denotes.
    fn to_stream(&self) -> Stream;
}

/// A reference a filter input or output can hold.
#[derive(Debug, PartialEq, Eq)]
pub enum StreamInput {
    /// A stream selector.
    Stream(Stream),
    /// A filter, referenced by its label.
    Filter(Filter),
    /// An input by index.
    InputIndex(i32),
    /// An input with a stream kind.
    InputWithType(i32, StreamType),
    /// An input with a stream index.
    InputWithIndex(i32, i32),
    /// A textual specifier.
    StringSpec(String),
}

/// The selector a textual specifier denotes: "N:v" selects a typed
/// stream, "N:M" a stream by index, "N" a whole input; anything else
/// selects input 0.
pub open spec fn parse_stream_view(s: Seq<char>) -> Stream {
    let p = first_index_of(s, ':');
    if p >= 0 {
        let ip = s.subrange(0, p);
        let sp = s.subrange(p + 1, s.len() as int);
        if ip.len() > 0 && all_digits(ip) && dec_val(ip) <= i32::MAX {
            let n = dec_val(ip) as i32;
            if sp == "v"@ {
                Stream {
                    input_index: n,
                    stream_type: StreamType::Video,
                    may_not: false,
                    stream_index: None,
                    label: None,
                }
            } else if sp == "a"@ {
                Stream {
                    input_index: n,
                    stream_type: StreamType::Audio,
                    may_not: false,
                    stream_index: None,
                    label: None,
                }
            } else if sp == "s"@ {
                Stream {
                    input_index: n,
                    stream_type: StreamType::Subtitle,
                    may_not: false,
                    stream_index: None,
                    label: None,
                }
            } else if sp == "d"@ {
                Stream {
                    input_index: n,
                    stream_type: StreamType::Data,
                    may_not: false,
                    stream_index: None,
                    label: None,
                }
            } else if sp.len() > 0 && all_digits(sp) && dec_val(sp) <= i32::MAX {
                Stream {
                    input_index: n,
                    stream_type: StreamType::Any,
                    may_not: false,
                    stream_index: Some(dec_val(sp) as i32),
                    label: None,
                }
            } else {
                Stream {
                    input_index: n,
                    stream_type: StreamType::Any,
                    may_not: false,
                    stream_index: None,
                    label: None,
                }
            }
        } else {
            Stream {
                input_index: 0,
                stream_type: StreamType::Any,
                may_not: false,
                stream_index: None,
                label: None,
            }
        }
    } else if s.len() > 0 && all_digits(s) && dec_val(s) <= i32::MAX {
        Stream {
            input_index: dec_val(s) as i32,
            stream_type: StreamType::Any,
            may_not: false,
            stream_index: None,
            label: None,
        }
    } else {
        Stream {
            input_index: 0,
            stream_type: StreamType::Any,
            may_not: false,
            stream_index: None,
            label: None,
        }
    }
}

/// Parse a textual stream specifier; see `parse_stream_view`.
pub fn parse_stream(s: &str) -> (r: Stream)
    ensures
        r == parse_stream_view(s@),
{
    let n = s.unicode_len();
    match strutil::find_char(s, ':') {
        Some(p) => {
            proof {
                strutil::lemma_first_index_found(s@, ':', p as int);
            }
            let ip = s.substring_char(0, p);
            let sp = s.substring_char(p + 1, n);
            match strutil::parse_u32(ip) {
                Some(v) if v <= 0x7fff_ffff => {
                    let idx = v as i32;
                    if strutil::str_eq(sp, "v") {
                        Stream::video(idx)
                    } else if strutil::str_eq(sp, "a") {
                        Stream::audio(idx)
                    } else if strutil::str_eq(sp, "s") {
                        Stream::subtitle(idx)
                    } else if strutil::str_eq(sp, "d") {
                        Stream::data(idx)
                    } else {
                        match strutil::parse_u32(sp) {
                            Some(m) if m <= 0x7fff_ffff => Stream::any(idx).with_index(m as i32),
                            _ => Stream::any(idx),
                        }
                    }
                },
                _ => Stream::any(0),
            }
        },
        None => {
            proof {
                strutil::lemma_first_index_absent(s@, ':');
            }
            match strutil::parse_u32(s) {
                Some(v) if v <= 0x7fff_ffff => Stream::any(v as i32),
                _ => Stream::any(0),
            }
        },
    }
}

impl StreamInput {
    /// The stream selector a reference denotes: a stream itself, a
    /// filter's label, an input or typed input, or a parsed specifier.
    pub open spec fn stream_view(self) -> Stream {
        match self {
            StreamInput::Stream(stream) => stream,
            StreamInput::Filter(filter) => Stream {
                input_index: 0,
                stream_type: StreamType::Any,
                may_not: false,
                stream_index: None,
                label: Some(filter.label.0),
            },
            StreamInput::InputIndex(index) => Stream {
                input_index: index,
                stream_type: StreamType::Any,
                may_not: false,
                stream_index: None,
                label: None,
            },
            StreamInput::InputWithType(input, stream_type) => Stream {
                input_index: input,
                stream_type,
                may_not: false,
                stream_index: None,
                label: None,
            },
            StreamInput::InputWithIndex(input, index) => Stream {
                input_index: input,
                stream_type: StreamType::Any,
                may_not: false,
                stream_index: Some(index),
                label: None,
            },
            StreamInput::StringSpec(spec) => parse_stream_view(spec@),
        }
    }

    /// The stream selector this reference denotes.
    pub fn stream_of(&self) -> (r: Stream)
        ensures
            r == self.stream_view(),
    {
        match self {
            StreamInput::Stream(stream) => stream.clone_stream(),
            StreamInput::Filter(filter) => Stream::any(0).with_label(filter.label.0.clone()),
            StreamInput::InputIndex(index) => Stream::any(*index),
            StreamInput::InputWithType(input, stream_type) => Stream::new(
                *input,
                *stream_type,
                false,
            ),
            StreamInput::InputWithIndex(input, index) => Stream::any(*input).with_index(*index),
            StreamInput::StringSpec(spec) => parse_stream(spec.as_str()),
        }
    }
}

impl Stream {
    /// An equal copy of the selector.
    pub fn clone_stream(&self) -> (r: Stream)
        ensures
            r == *self,
    {
        Stream {
            input_index: self.input_index,
            stream_type: self.stream_type,
            may_not: self.may_not,
            stream_index: self.stream_index,
            label: match &self.label {
                Some(l) => Some(l.clone()),
                None => None,
            },
        }
    }
}

impl Streamable for StreamInput {
    /// The stream selector this reference denotes.
    fn to_stream(&self) -> Stream {
        self.stream_of()
    }
}

impl Streamable for Stream {
    /// A stream denotes itself.
    fn to_stream(&self) -> Stream {
        self.clone_stream()
    }
}

impl Streamable for Filter {
    /// A filter denotes its labeled output.
    fn to_stream(&self) -> Stream {
        Stream::any(0).with_label(self.label.0.clone())
    }
}

impl Streamable for i32 {
    /// An integer denotes a whole input.
    fn to_stream(&self) -> Stream {
        Stream::any(*self)
    }
}

impl Streamable for (i32, StreamType) {
    /// A pair of input index and kind denotes a typed stream.
    fn to_stream(&self) -> Stream {
        Stream::new(self.0, self.1, false)
    }
}

impl Streamable for (i32, i32) {
    /// A pair of input and stream index denotes a stream by index.
    fn to_stream(&self) -> Stream {
        Stream::any(self.0).with_index(self.1)
    }
}

impl Streamable for String {
    /// A string denotes a parsed specifier.
    fn to_stream(&self) -> Stream {
        parse_stream(self.as_str())
    }
}

impl From<Stream> for StreamInput {
    /// Wrap a stream selector.
    fn from(stream: Stream) -> (r: StreamInput) {
        StreamInput::Stream(stream)
    }
}

impl vstd::std_specs::convert::FromSpecImpl<Stream> for StreamInput {
    open spec fn obeys_from_spec() -> bool {
        true
    }

    open spec fn from_spec(stream: Stream) -> StreamInput {
        StreamInput::Stream(stream)
    }
}

impl From<i32> for StreamInput {
    /// Wrap an input index.
    fn from(index: i32) -> (r: StreamInput) {
        StreamInput::InputIndex(index)
    }
}

impl vstd::std_specs::convert::FromSpecImpl<i32> for StreamInput {
    open spec fn obeys_from_spec() -> bool {
        true
    }

    open spec fn from_spec(index: i32) -> StreamInput {
        StreamInput::InputIndex(index)
    }
}

impl From<(i32, StreamType)> for StreamInput {
    /// Wrap an input index with a stream kind.
    fn from(tuple: (i32, StreamType)) -> (r: StreamInput) {
        StreamInput::InputWithType(tuple.0, tuple.1)
    }
}

impl vstd::std_specs::convert::FromSpecImpl<(i32, StreamType)> for StreamInput {
    open spec fn obeys_from_spec() -> bool {
        true
    }

    open spec fn from_spec(tuple: (i32, StreamType)) -> StreamInput {
        StreamInput::InputWithType(tuple.0, tuple.1)
    }
}

impl From<(i32, i32)> for StreamInput {
    /// Wrap an input index with a stream index.
    fn from(tuple: (i32, i32)) -> (r: StreamInput) {
        StreamInput::InputWithIndex(tuple.0, tuple.1)
    }
}

impl vstd::std_specs::convert::FromSpecImpl<(i32, i32)> for StreamInput {
    open spec fn obeys_from_spec() -> bool {
        true
    }

    open spec fn from_spec(tuple: (i32, i32)) -> StreamInput {
        StreamInput::InputWithIndex(tuple.0, tuple.1)
    }
}

impl From<String> for StreamInput {
    /// Wrap a textual specifier.
    fn from(spec: String) -> (r: StreamInput) {
        StreamInput::StringSpec(spec)
    }
}

impl vstd::std_specs::convert::FromSpecImpl<String> for StreamInput {
    open spec fn obeys_from_spec() -> bool {
        true
    }

    open spec fn from_spec(spec: String) -> StreamInput {
        StreamInput::StringSpec(spec)
    }
}

impl From<&str> for StreamInput {
    /// Wrap a textual specifier.
    fn from(spec: &str) -> (r: StreamInput) {
        StreamInput::StringSpec(String::from_str(spec))
    }
}

impl vstd::std_specs::convert::FromSpecImpl<&str> for StreamInput {
    open spec fn obeys_from_spec() -> bool {
        false
    }

    open spec fn from_spec(spec: &str) -> StreamInput {
        StreamInput::StringSpec(arbitrary())
    }
}

} // verus!
