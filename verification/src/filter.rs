//! Filter nodes: the operations of the compiled graph.
//!
//! A filter has a stable label, a name, parameters, and ordered input and
//! output references; its textual form is
//! `[in]..name=p1:p2..[out]..`, with the label standing in when no
//! outputs are named. Labels are assigned deterministically by the graph
//! builder, so the emitted text is stable.

use vstd::prelude::*;

use crate::strutil::{dec_str, int_str, join_view, milli_dec_view, string_views};
use crate::strutil;
use crate::stream::StreamInput;

verus! {

/// A filter output label.
#[derive(Debug, Clone, PartialEq, Eq)]
pub struct Label(pub String);

impl Label {
    /// Create a label.
    pub fn new(s: String) -> (r: Label)
        ensures
            r.0 == s,
    {
        Label(s)
    }

    /// The label text.
    pub fn text(&self) -> (r: &str)
        ensures
            r@ == self.0@,
    {
        self.0.as_str()
    }
}

/// A filter node.
#[derive(Debug, PartialEq, Eq)]
pub struct Filter {
    /// Output label, used when no outputs are named.
    pub label: Label,
    /// Filter name.
    pub name: String,
    /// Parameters, joined with ":" in the textual form.
    pub params: Vec<String>,
    /// Input references, in order.
    pub inputs: Vec<StreamInput>,
    /// Output references, in order.
    pub outputs: Vec<StreamInput>,
}

/// Each reference rendered as a bracketed specifier, concatenated in
/// order.
pub open spec fn bracket_texts(refs: Seq<StreamInput>) -> Seq<char>
    decreases refs.len(),
{
    if refs.len() == 0 {
        Seq::empty()
    } else {
        bracket_texts(refs.drop_last()) + "["@ + refs.last().stream_view().specifier_view()
            + "]"@
    }
}

/// The textual form of a filter node.
pub open spec fn build_view(f: Filter) -> Seq<char> {
    bracket_texts(f.inputs@) + f.name@ + (if f.params@.len() > 0 {
        "="@ + join_view(string_views(f.params@), ":"@)
    } else {
        Seq::empty()
    }) + (if f.outputs@.len() > 0 {
        bracket_texts(f.outputs@)
    } else if f.label.0@.len() > 0 {
        "["@ + f.label.0@ + "]"@
    } else {
        Seq::empty()
    })
}

impl Filter {
    /// Create a filter with the given name, no parameters, no references,
    /// and an empty label.
    pub fn with_name(name: &str) -> (r: Filter)
        ensures
            r.label.0@ == Seq::<char>::empty(),
            r.name@ == name@,
            r.params@.len() == 0,
            r.inputs@.len() == 0,
            r.outputs@.len() == 0,
    {
        Filter {
            label: Label(String::new()),
            name: String::from_str(name),
            params: Vec::new(),
            inputs: Vec::new(),
            outputs: Vec::new(),
        }
    }

    /// Append one parameter.
    pub fn param(self, param: &str) -> (r: Filter)
        ensures
            r == (Filter { params: r.params, ..self }),
            r.params@.len() == self.params@.len() + 1,
            r.params@.drop_last() == self.params@,
            r.params@.last()@ == param@,
    {
        let mut params = self.params;
        params.push(String::from_str(param));
        let r = Filter { params, ..self };
        assert(r.params@.drop_last() =~= self.params@);
        r
    }

    /// Append several parameters, in order.
    pub fn params(self, params: Vec<String>) -> (r: Filter)
        ensures
            r == (Filter { params: r.params, ..self }),
            r.params@ == self.params@ + params@,
    {
        let mut all = self.params;
        let mut rest = params;
        all.append(&mut rest);
        Filter { params: all, ..self }
    }

    /// Append one input reference.
    pub fn r(self, input: StreamInput) -> (r: Filter)
        ensures
            r == (Filter { inputs: r.inputs, ..self }),
            r.inputs@ == self.inputs@.push(input),
    {
        let mut inputs = self.inputs;
        inputs.push(input);
        Filter { inputs, ..self }
    }

    /// Replace the input references.
    pub fn refs(self, inputs: Vec<StreamInput>) -> (r: Filter)
        ensures
            r == (Filter { inputs: r.inputs, ..self }),
            r.inputs@ == inputs@,
    {
        Filter { inputs, ..self }
    }

    /// Replace the outputs with a single reference.
    pub fn output(self, label: StreamInput) -> (r: Filter)
        ensures
            r == (Filter { outputs: r.outputs, ..self }),
            r.outputs@.len() == 1,
            r.outputs@[0] == label,
    {
        let mut outputs: Vec<StreamInput> = Vec::new();
        outputs.push(label);
        Filter { outputs, ..self }
    }

    /// Replace the output references.
    pub fn outputs(self, outputs: Vec<StreamInput>) -> (r: Filter)
        ensures
            r == (Filter { outputs: r.outputs, ..self }),
            r.outputs@ == outputs@,
    {
        Filter { outputs, ..self }
    }

    /// Attach a label.
    pub fn with_label(self, label: &str) -> (r: Filter)
        ensures
            r == (Filter { label: r.label, ..self }),
            r.label.0@ == label@,
    {
        Filter { label: Label(String::from_str(label)), ..self }
    }

    /// Render the filter's textual form.
    pub fn build(&self) -> (r: String)
        ensures
            r@ == build_view(*self),
    {
        let mut r = String::new();
        let ni = self.inputs.len();
        let mut i: usize = 0;
        while i < ni
            invariant
                ni == self.inputs@.len(),
                0 <= i <= ni,
                r@ == bracket_texts(self.inputs@.subrange(0, i as int)),
            decreases ni - i,
        {
            proof {
                let t = self.inputs@.subrange(0, i + 1);
                assert(t.drop_last() =~= self.inputs@.subrange(0, i as int));
                assert(t.last() == self.inputs@[i as int]);
            }
            r.append("[");
            let s = self.inputs[i].stream_of();
            let text = s.specifier();
            r.append(text.as_str());
            r.append("]");
            assert(r@ =~= bracket_texts(self.inputs@.subrange(0, i + 1)));
            i = i + 1;
        }
        assert(self.inputs@.subrange(0, ni as int) =~= self.inputs@);

        r.append(self.name.as_str());
        if self.params.len() > 0 {
            r.append("=");
            let joined = strutil::join_strings(&self.params, ":");
            r.append(joined.as_str());
        }

        let no = self.outputs.len();
        if no > 0 {
            let ghost mid = r@;
            let mut k: usize = 0;
            while k < no
                invariant
                    no == self.outputs@.len(),
                    0 <= k <= no,
                    r@ == mid + bracket_texts(self.outputs@.subrange(0, k as int)),
                decreases no - k,
            {
                proof {
                    let t = self.outputs@.subrange(0, k + 1);
                    assert(t.drop_last() =~= self.outputs@.subrange(0, k as int));
                    assert(t.last() == self.outputs@[k as int]);
                }
                r.append("[");
                let s = self.outputs[k].stream_of();
                let text = s.specifier();
                r.append(text.as_str());
                r.append("]");
                assert(r@ =~= mid + bracket_texts(self.outputs@.subrange(0, k + 1)));
                k = k + 1;
            }
            assert(self.outputs@.subrange(0, no as int) =~= self.outputs@);
        } else if !self.label.0.as_str().is_empty() {
            r.append("[");
            r.append(self.label.0.as_str());
            r.append("]");
        }
        assert(r@ =~= build_view(*self));
        r
    }

    /// A scale node; a non-positive side means "derive proportionally".
    pub fn scale(width: i32, height: i32) -> (r: Filter)
        ensures
            r.name@ == "scale"@,
            r.label.0@.len() == 0,
            r.inputs@.len() == 0 && r.outputs@.len() == 0,
            string_views(r.params@) =~= seq![scale_side_view(width), scale_side_view(height)],
    {
        let w_str = if width <= 0 {
            String::from_str("-2")
        } else {
            strutil::i32_to_string(width)
        };
        let h_str = if height <= 0 {
            String::from_str("-2")
        } else {
            strutil::i32_to_string(height)
        };
        let mut params: Vec<String> = Vec::new();
        params.push(w_str);
        params.push(h_str);
        let r = Filter::with_name("scale").params(params);
        assert(string_views(r.params@) =~= seq![scale_side_view(width), scale_side_view(height)]);
        r
    }

    /// A scale node that keeps the aspect ratio at a fixed width.
    pub fn scale_keep_aspect(size: i32) -> (r: Filter)
        ensures
            r.name@ == "scale"@,
            string_views(r.params@) =~= seq![int_str(size as int) + ":-2"@],
    {
        let mut p = strutil::i32_to_string(size);
        p.append(":-2");
        let r = Filter::with_name("scale").param(p.as_str());
        assert(string_views(r.params@) =~= seq![int_str(size as int) + ":-2"@]);
        r
    }

    /// A crop node.
    pub fn crop(width: i32, height: i32, x: i32, y: i32) -> (r: Filter)
        ensures
            r.name@ == "crop"@,
            string_views(r.params@) =~= seq![
                int_str(width as int),
                int_str(height as int),
                int_str(x as int),
                int_str(y as int),
            ],
    {
        let mut params: Vec<String> = Vec::new();
        params.push(strutil::i32_to_string(width));
        params.push(strutil::i32_to_string(height));
        params.push(strutil::i32_to_string(x));
        params.push(strutil::i32_to_string(y));
        let r = Filter::with_name("crop").params(params);
        assert(string_views(r.params@) =~= seq![
            int_str(width as int),
            int_str(height as int),
            int_str(x as int),
            int_str(y as int),
        ]);
        r
    }

    /// A delogo node.
    pub fn delogo(x: i32, y: i32, width: i32, height: i32) -> (r: Filter)
        ensures
            r.name@ == "delogo"@,
            string_views(r.params@) =~= seq![
                "x="@ + int_str(x as int),
                "y="@ + int_str(y as int),
                "w="@ + int_str(width as int),
                "h="@ + int_str(height as int),
            ],
    {
        let mut px = String::from_str("x=");
        let xs = strutil::i32_to_string(x);
        px.append(xs.as_str());
        let mut py = String::from_str("y=");
        let ys = strutil::i32_to_string(y);
        py.append(ys.as_str());
        let mut pw = String::from_str("w=");
        let ws = strutil::i32_to_string(width);
        pw.append(ws.as_str());
        let mut ph = String::from_str("h=");
        let hs = strutil::i32_to_string(height);
        ph.append(hs.as_str());
        let mut params: Vec<String> = Vec::new();
        params.push(px);
        params.push(py);
        params.push(pw);
        params.push(ph);
        let r = Filter::with_name("delogo").params(params);
        assert(string_views(r.params@) =~= seq![
            "x="@ + int_str(x as int),
            "y="@ + int_str(y as int),
            "w="@ + int_str(width as int),
            "h="@ + int_str(height as int),
        ]);
        r
    }

    /// An overlay node at a pixel position.
    pub fn overlay(x: i32, y: i32) -> (r: Filter)
        ensures
            r.name@ == "overlay"@,
            string_views(r.params@) =~= seq![int_str(x as int) + ":"@ + int_str(y as int)],
    {
        let mut p = strutil::i32_to_string(x);
        p.append(":");
        let ys = strutil::i32_to_string(y);
        p.append(ys.as_str());
        let r = Filter::with_name("overlay").param(p.as_str());
        assert(string_views(r.params@) =~= seq![int_str(x as int) + ":"@ + int_str(y as int)]);
        r
    }

    /// An overlay node with a position expression.
    pub fn overlay_pos(position: &str) -> (r: Filter)
        ensures
            r.name@ == "overlay"@,
            string_views(r.params@) =~= seq![position@],
    {
        let r = Filter::with_name("overlay").param(position);
        assert(string_views(r.params@) =~= seq![position@]);
        r
    }

    /// An overlay node at a position, gated by an enable expression.
    pub fn overlay_with_enable(x: i32, y: i32, enable: &str) -> (r: Filter)
        ensures
            r.name@ == "overlay"@,
            string_views(r.params@) =~= seq![
                int_str(x as int) + ":"@ + int_str(y as int),
                enable@,
            ],
    {
        let mut p = strutil::i32_to_string(x);
        p.append(":");
        let ys = strutil::i32_to_string(y);
        p.append(ys.as_str());
        let r = Filter::with_name("overlay").param(p.as_str()).param(enable);
        assert(string_views(r.params@) =~= seq![
            int_str(x as int) + ":"@ + int_str(y as int),
            enable@,
        ]);
        r
    }

    /// A frame-rate node.
    pub fn fps(fps: &str) -> (r: Filter)
        ensures
            r.name@ == "fps"@,
            string_views(r.params@) =~= seq![fps@],
    {
        let r = Filter::with_name("fps").param(fps);
        assert(string_views(r.params@) =~= seq![fps@]);
        r
    }

    /// A frame-select node.
    pub fn select(expression: &str) -> (r: Filter)
        ensures
            r.name@ == "select"@,
            string_views(r.params@) =~= seq![expression@],
    {
        let r = Filter::with_name("select").param(expression);
        assert(string_views(r.params@) =~= seq![expression@]);
        r
    }

    /// A tile node for sprite sheets.
    pub fn tile(cols: i32, rows: i32) -> (r: Filter)
        ensures
            r.name@ == "tile"@,
            string_views(r.params@) =~= seq![
                "layout="@ + int_str(cols as int) + "x"@ + int_str(rows as int),
            ],
    {
        let mut p = String::from_str("layout=");
        let cs = strutil::i32_to_string(cols);
        p.append(cs.as_str());
        p.append("x");
        let rs = strutil::i32_to_string(rows);
        p.append(rs.as_str());
        let r = Filter::with_name("tile").param(p.as_str());
        assert(string_views(r.params@) =~= seq![
            "layout="@ + int_str(cols as int) + "x"@ + int_str(rows as int),
        ]);
        r
    }

    /// A video timestamp node.
    pub fn setpts(expression: &str) -> (r: Filter)
        ensures
            r.name@ == "setpts"@,
            string_views(r.params@) =~= seq![expression@],
    {
        let r = Filter::with_name("setpts").param(expression);
        assert(string_views(r.params@) =~= seq![expression@]);
        r
    }

    /// An audio timestamp node.
    pub fn asetpts(expression: &str) -> (r: Filter)
        ensures
            r.name@ == "asetpts"@,
            string_views(r.params@) =~= seq![expression@],
    {
        let r = Filter::with_name("asetpts").param(expression);
        assert(string_views(r.params@) =~= seq![expression@]);
        r
    }

    /// A fade-in node over frames.
    pub fn fade_in(start_frame: i32, duration: i32) -> (r: Filter)
        ensures
            r.name@ == "fade"@,
            string_views(r.params@) =~= seq![
                "t=in"@,
                "st="@ + int_str(start_frame as int),
                "d="@ + int_str(duration as int),
            ],
    {
        let mut st = String::from_str("st=");
        let ss = strutil::i32_to_string(start_frame);
        st.append(ss.as_str());
        let mut d = String::from_str("d=");
        let ds = strutil::i32_to_string(duration);
        d.append(ds.as_str());
        let r = Filter::with_name("fade").param("t=in").param(st.as_str()).param(d.as_str());
        assert(string_views(r.params@) =~= seq![
            "t=in"@,
            "st="@ + int_str(start_frame as int),
            "d="@ + int_str(duration as int),
        ]);
        r
    }

    /// A fade-out node over frames.
    pub fn fade_out(start_frame: i32, duration: i32) -> (r: Filter)
        ensures
            r.name@ == "fade"@,
            string_views(r.params@) =~= seq![
                "t=out"@,
                "st="@ + int_str(start_frame as int),
                "d="@ + int_str(duration as int),
            ],
    {
        let mut st = String::from_str("st=");
        let ss = strutil::i32_to_string(start_frame);
        st.append(ss.as_str());
        let mut d = String::from_str("d=");
        let ds = strutil::i32_to_string(duration);
        d.append(ds.as_str());
        let r = Filter::with_name("fade").param("t=out").param(st.as_str()).param(d.as_str());
        assert(string_views(r.params@) =~= seq![
            "t=out"@,
            "st="@ + int_str(start_frame as int),
            "d="@ + int_str(duration as int),
        ]);
        r
    }

    /// A horizontal flip node.
    pub fn hflip() -> (r: Filter)
        ensures
            r.name@ == "hflip"@,
            r.params@.len() == 0,
    {
        Filter::with_name("hflip")
    }

    /// A vertical flip node.
    pub fn vflip() -> (r: Filter)
        ensures
            r.name@ == "vflip"@,
            r.params@.len() == 0,
    {
        Filter::with_name("vflip")
    }

    /// A transpose node.
    pub fn transpose(direction: i32) -> (r: Filter)
        ensures
            r.name@ == "transpose"@,
            string_views(r.params@) =~= seq![int_str(direction as int)],
    {
        let p = strutil::i32_to_string(direction);
        let r = Filter::with_name("transpose").param(p.as_str());
        assert(string_views(r.params@) =~= seq![int_str(direction as int)]);
        r
    }

    /// An amplitude node; the factor is given in thousandths.
    pub fn volume_milli(volume: u64) -> (r: Filter)
        ensures
            r.name@ == "volume"@,
            string_views(r.params@) =~= seq![milli_dec_view(volume as nat)],
    {
        let p = strutil::milli_to_decimal_string(volume);
        let r = Filter::with_name("volume").param(p.as_str());
        assert(string_views(r.params@) =~= seq![milli_dec_view(volume as nat)]);
        r
    }

    /// A tempo node; the rate is given in thousandths.
    pub fn atempo_milli(speed: u64) -> (r: Filter)
        ensures
            r.name@ == "atempo"@,
            string_views(r.params@) =~= seq![milli_dec_view(speed as nat)],
    {
        let p = strutil::milli_to_decimal_string(speed);
        let r = Filter::with_name("atempo").param(p.as_str());
        assert(string_views(r.params@) =~= seq![milli_dec_view(speed as nat)]);
        r
    }

    /// An audio resample node.
    pub fn resample(sample_rate: i32) -> (r: Filter)
        ensures
            r.name@ == "aresample"@,
            string_views(r.params@) =~= seq![int_str(sample_rate as int)],
    {
        let p = strutil::i32_to_string(sample_rate);
        let r = Filter::with_name("aresample").param(p.as_str());
        assert(string_views(r.params@) =~= seq![int_str(sample_rate as int)]);
        r
    }

    /// An audio channel-layout node.
    pub fn achannels(channels: i32) -> (r: Filter)
        ensures
            r.name@ == "aformat"@,
            string_views(r.params@) =~= seq!["channel_layouts="@ + int_str(channels as int)],
    {
        let mut p = String::from_str("channel_layouts=");
        let cs = strutil::i32_to_string(channels);
        p.append(cs.as_str());
        let r = Filter::with_name("aformat").param(p.as_str());
        assert(string_views(r.params@) =~= seq!["channel_layouts="@ + int_str(channels as int)]);
        r
    }

    /// An audio mix node over the given number of inputs.
    pub fn amix(inputs: i32) -> (r: Filter)
        ensures
            r.name@ == "amix"@,
            string_views(r.params@) =~= seq!["inputs="@ + int_str(inputs as int)],
    {
        let mut p = String::from_str("inputs=");
        let is_ = strutil::i32_to_string(inputs);
        p.append(is_.as_str());
        let r = Filter::with_name("amix").param(p.as_str());
        assert(string_views(r.params@) =~= seq!["inputs="@ + int_str(inputs as int)]);
        r
    }

    /// An audio trim node over a source window, in milliseconds.
    pub fn atrim_millis(start: u64, duration: u64) -> (r: Filter)
        ensures
            r.name@ == "atrim"@,
            string_views(r.params@) =~= seq![
                "start="@ + milli_dec_view(start as nat),
                "duration="@ + milli_dec_view(duration as nat),
            ],
    {
        let mut ps = String::from_str("start=");
        let ss = strutil::milli_to_decimal_string(start);
        ps.append(ss.as_str());
        let mut pd = String::from_str("duration=");
        let ds = strutil::milli_to_decimal_string(duration);
        pd.append(ds.as_str());
        let r = Filter::with_name("atrim").param(ps.as_str()).param(pd.as_str());
        assert(string_views(r.params@) =~= seq![
            "start="@ + milli_dec_view(start as nat),
            "duration="@ + milli_dec_view(duration as nat),
        ]);
        r
    }

    /// An audio delay node, in milliseconds.
    pub fn adelay_millis(delay: u64) -> (r: Filter)
        ensures
            r.name@ == "adelay"@,
            string_views(r.params@) =~= seq![dec_str(delay as nat) + "ms"@],
    {
        let mut p = strutil::u64_to_string(delay);
        p.append("ms");
        let r = Filter::with_name("adelay").param(p.as_str());
        assert(string_views(r.params@) =~= seq![dec_str(delay as nat) + "ms"@]);
        r
    }

    /// A solid-color source node sized to the stage, with a duration in
    /// milliseconds.
    pub fn color(width: i32, height: i32, duration: u64) -> (r: Filter)
        ensures
            r.name@ == "color"@,
            r.inputs@.len() == 0 && r.outputs@.len() == 0,
            string_views(r.params@) =~= seq![
                "c=black"@,
                "s="@ + int_str(width as int) + "x"@ + int_str(height as int),
                "d="@ + milli_dec_view(duration as nat),
            ],
    {
        let mut ps = String::from_str("s=");
        let ws = strutil::i32_to_string(width);
        ps.append(ws.as_str());
        ps.append("x");
        let hs = strutil::i32_to_string(height);
        ps.append(hs.as_str());
        let mut pd = String::from_str("d=");
        let ds = strutil::milli_to_decimal_string(duration);
        pd.append(ds.as_str());
        let r = Filter::with_name("color").param("c=black").param(ps.as_str()).param(pd.as_str());
        assert(string_views(r.params@) =~= seq![
            "c=black"@,
            "s="@ + int_str(width as int) + "x"@ + int_str(height as int),
            "d="@ + milli_dec_view(duration as nat),
        ]);
        r
    }

    /// A silent audio source node with a duration in milliseconds.
    pub fn anullsrc(duration: u64) -> (r: Filter)
        ensures
            r.name@ == "anullsrc"@,
            r.inputs@.len() == 0 && r.outputs@.len() == 0,
            string_views(r.params@) =~= seq!["d="@ + milli_dec_view(duration as nat)],
    {
        let mut p = String::from_str("d=");
        let ds = strutil::milli_to_decimal_string(duration);
        p.append(ds.as_str());
        let r = Filter::with_name("anullsrc").param(p.as_str());
        assert(string_views(r.params@) =~= seq!["d="@ + milli_dec_view(duration as nat)]);
        r
    }

    /// A split node duplicating a video stream.
    pub fn split(outputs: i32) -> (r: Filter)
        ensures
            r.name@ == "split"@,
            outputs > 1 ==> string_views(r.params@) =~= seq![int_str(outputs as int)],
            outputs <= 1 ==> r.params@.len() == 0,
    {
        let mut filter = Filter::with_name("split");
        if outputs > 1 {
            let p = strutil::i32_to_string(outputs);
            filter = filter.param(p.as_str());
            assert(string_views(filter.params@) =~= seq![int_str(outputs as int)]);
        }
        filter
    }

    /// A split node duplicating an audio stream.
    pub fn asplit(outputs: i32) -> (r: Filter)
        ensures
            r.name@ == "asplit"@,
            outputs > 1 ==> string_views(r.params@) =~= seq![int_str(outputs as int)],
            outputs <= 1 ==> r.params@.len() == 0,
    {
        let mut filter = Filter::with_name("asplit");
        if outputs > 1 {
            let p = strutil::i32_to_string(outputs);
            filter = filter.param(p.as_str());
            assert(string_views(filter.params@) =~= seq![int_str(outputs as int)]);
        }
        filter
    }

    /// A concatenation node.
    pub fn concat(n_segments: i32, v_streams: i32, a_streams: i32) -> (r: Filter)
        ensures
            r.name@ == "concat"@,
            string_views(r.params@) =~= seq![
                "n="@ + int_str(n_segments as int),
                "v="@ + int_str(v_streams as int),
                "a="@ + int_str(a_streams as int),
            ],
    {
        let mut pn = String::from_str("n=");
        let ns = strutil::i32_to_string(n_segments);
        pn.append(ns.as_str());
        let mut pv = String::from_str("v=");
        let vs = strutil::i32_to_string(v_streams);
        pv.append(vs.as_str());
        let mut pa = String::from_str("a=");
        let as_ = strutil::i32_to_string(a_streams);
        pa.append(as_.as_str());
        let r = Filter::with_name("concat").param(pn.as_str()).param(pv.as_str()).param(
            pa.as_str(),
        );
        assert(string_views(r.params@) =~= seq![
            "n="@ + int_str(n_segments as int),
            "v="@ + int_str(v_streams as int),
            "a="@ + int_str(a_streams as int),
        ]);
        r
    }

    /// A pass-through video node.
    pub fn null() -> (r: Filter)
        ensures
            r.name@ == "null"@,
            r.params@.len() == 0,
    {
        Filter::with_name("null")
    }

    /// A pass-through audio node.
    pub fn anull() -> (r: Filter)
        ensures
            r.name@ == "anull"@,
            r.params@.len() == 0,
    {
        Filter::with_name("anull")
    }
}

/// The side of a scale parameter: "-2" derives the side proportionally.
pub open spec fn scale_side_view(v: i32) -> Seq<char> {
    if v <= 0 {
        "-2"@
    } else {
        int_str(v as int)
    }
}

/// The textual form of a filter sequence, ";"-separated.
pub open spec fn chain_view(fs: Seq<Filter>) -> Seq<char>
    decreases fs.len(),
{
    if fs.len() == 0 {
        Seq::empty()
    } else if fs.len() == 1 {
        build_view(fs[0])
    } else {
        chain_view(fs.drop_last()) + ";"@ + build_view(fs.last())
    }
}

/// An ordered chain of filters.
#[derive(Debug, PartialEq, Eq)]
pub struct FilterChain {
    /// The filters, in order.
    pub filters: Vec<Filter>,
}

impl FilterChain {
    /// Create an empty chain.
    pub fn new() -> (r: FilterChain)
        ensures
            r.filters@.len() == 0,
    {
        FilterChain { filters: Vec::new() }
    }

    /// Append one filter.
    pub fn add_filter(self, filter: Filter) -> (r: FilterChain)
        ensures
            r.filters@ == self.filters@.push(filter),
    {
        let mut filters = self.filters;
        filters.push(filter);
        FilterChain { filters }
    }

    /// Append several filters, in order.
    pub fn add_filters(self, filters: Vec<Filter>) -> (r: FilterChain)
        ensures
            r.filters@ == self.filters@ + filters@,
    {
        let mut all = self.filters;
        let mut rest = filters;
        all.append(&mut rest);
        FilterChain { filters: all }
    }

    /// Render the chain, ";"-separated.
    pub fn build(&self) -> (r: String)
        ensures
            r@ == chain_view(self.filters@),
    {
        let n = self.filters.len();
        let mut r = String::new();
        let mut i: usize = 0;
        while i < n
            invariant
                n == self.filters@.len(),
                0 <= i <= n,
                r@ == chain_view(self.filters@.subrange(0, i as int)),
            decreases n - i,
        {
            proof {
                let t = self.filters@.subrange(0, i + 1);
                assert(t.drop_last() =~= self.filters@.subrange(0, i as int));
                assert(t.last() == self.filters@[i as int]);
            }
            if i > 0 {
                r.append(";");
            }
            let text = self.filters[i].build();
            r.append(text.as_str());
            assert(r@ =~= chain_view(self.filters@.subrange(0, i + 1)));
            i = i + 1;
        }
        assert(self.filters@.subrange(0, n as int) =~= self.filters@);
        r
    }
}

impl Default for FilterChain {
    /// The default chain is empty.
    fn default() -> (r: FilterChain)
        ensures
            r.filters@.len() == 0,
    {
        FilterChain { filters: Vec::new() }
    }
}

} // verus!
