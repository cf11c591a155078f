//! The engine command builder: inputs, a filter graph, and outputs.
//!
//! Filters added to the graph receive deterministic labels "f0", "f1", ...
//! in insertion order, so the emitted graph text is stable across runs.

use vstd::prelude::*;

use crate::filter::{chain_view, Filter, Label};
use crate::input::{input_args_view, Input};
use crate::options::FFmpegOptions;
use crate::output::{output_args_view, Output};
use crate::stream::{Stream, StreamInput, StreamType};
use crate::strutil::{dec_str, string_views};
use crate::strutil;

verus! {

/// The engine command under construction.
#[derive(Debug, PartialEq, Eq)]
pub struct FFmpeg {
    /// Engine invocation options.
    pub ffmpeg_options: FFmpegOptions,
    /// Bound inputs, in order.
    pub inputs: Vec<Input>,
    /// Filter nodes, in insertion order.
    pub filters: Vec<Filter>,
    /// Outputs, in order.
    pub outputs: Vec<Output>,
    /// The next input index.
    pub input_counter: u32,
}

/// The input arguments of a sequence of inputs, flattened in order.
pub open spec fn inputs_args_view(inputs: Seq<Input>) -> Seq<Seq<char>>
    decreases inputs.len(),
{
    if inputs.len() == 0 {
        Seq::empty()
    } else {
        inputs_args_view(inputs.drop_last()) + input_args_view(inputs.last())
    }
}

/// The output arguments of a sequence of outputs, flattened in order.
pub open spec fn outputs_args_view(outputs: Seq<Output>) -> Seq<Seq<char>>
    decreases outputs.len(),
{
    if outputs.len() == 0 {
        Seq::empty()
    } else {
        outputs_args_view(outputs.drop_last()) + output_args_view(outputs.last())
    }
}

/// The full argument list of an engine command: verbosity, overwrite flag,
/// custom arguments, inputs, the filter graph, and outputs.
pub open spec fn ffmpeg_args_view(f: FFmpeg) -> Seq<Seq<char>> {
    seq!["-v"@, f.ffmpeg_options.log_level.name_view()] + (if f.ffmpeg_options.overwrite {
        seq!["-y"@]
    } else {
        Seq::empty()
    }) + string_views(f.ffmpeg_options.custom_args@) + inputs_args_view(f.inputs@) + (if
    f.filters@.len() > 0 && chain_view(f.filters@).len() > 0 {
        seq!["-filter_complex"@, chain_view(f.filters@)]
    } else {
        Seq::empty()
    }) + outputs_args_view(f.outputs@)
}

/// An input equal to another except for its assigned index.
pub open spec fn same_input_with_idx(a: Input, b: Input, idx: u32) -> bool {
    &&& a.idx == idx
    &&& a.path == b.path
    &&& a.start_time == b.start_time
    &&& a.duration == b.duration
    &&& a.framerate == b.framerate
    &&& a.format == b.format
    &&& a.options@ == b.options@
}

/// The label given to the n-th filter added to a graph.
pub open spec fn filter_label_view(n: nat) -> Seq<char> {
    "f"@ + dec_str(n)
}

impl FFmpeg {
    /// Create an empty command with default options.
    pub fn new() -> (r: FFmpeg)
        ensures
            r.ffmpeg_options.binary_path@ == "ffmpeg"@,
            r.inputs@.len() == 0,
            r.filters@.len() == 0,
            r.outputs@.len() == 0,
            r.input_counter == 0,
    {
        FFmpeg {
            ffmpeg_options: FFmpegOptions::new(),
            inputs: Vec::new(),
            filters: Vec::new(),
            outputs: Vec::new(),
            input_counter: 0,
        }
    }

    /// Replace the engine options.
    pub fn set_ffmpeg_options(&mut self, options: FFmpegOptions)
        ensures
            *final(self) == (FFmpeg { ffmpeg_options: options, ..*old(self) }),
    {
        self.ffmpeg_options = options;
    }

    /// Bind an input, assigning it the next input index; the bound input is
    /// returned for stream references.
    pub fn add_input(&mut self, input: Input) -> (r: Input)
        requires
            old(self).input_counter < u32::MAX,
        ensures
            final(self).ffmpeg_options == old(self).ffmpeg_options,
            final(self).filters == old(self).filters,
            final(self).outputs == old(self).outputs,
            final(self).input_counter == old(self).input_counter + 1,
            final(self).inputs@.len() == old(self).inputs@.len() + 1,
            final(self).inputs@.drop_last() == old(self).inputs@,
            same_input_with_idx(final(self).inputs@.last(), input, old(self).input_counter),
            same_input_with_idx(r, input, old(self).input_counter),
    {
        let mut bound = input;
        bound.set_idx(self.input_counter);
        self.input_counter = self.input_counter + 1;
        let copy = bound.clone_input();
        self.inputs.push(bound);
        assert(final(self).inputs@.drop_last() =~= old(self).inputs@);
        copy
    }

    /// Append an input without assigning an index.
    pub fn add_input_mut(&mut self, input: Input)
        ensures
            *final(self) == (FFmpeg { inputs: final(self).inputs, ..*old(self) }),
            final(self).inputs@ == old(self).inputs@.push(input),
    {
        self.inputs.push(input);
    }

    /// Append a filter with the given input references; the filter gets the
    /// next deterministic label, and a selector for its output is returned.
    pub fn add_filter(&mut self, filter: Filter, inputs: Vec<StreamInput>) -> (r: Stream)
        ensures
            final(self).ffmpeg_options == old(self).ffmpeg_options,
            final(self).inputs == old(self).inputs,
            final(self).outputs == old(self).outputs,
            final(self).input_counter == old(self).input_counter,
            final(self).filters@.len() == old(self).filters@.len() + 1,
            final(self).filters@.drop_last() == old(self).filters@,
            forall|i: int|
                0 <= i < old(self).filters@.len() ==> #[trigger] final(self).filters@[i] == old(
                    self,
                ).filters@[i],
            final(self).filters@.last() == (Filter {
                label: final(self).filters@.last().label,
                inputs: final(self).filters@.last().inputs,
                ..filter
            }),
            final(self).filters@.last().label.0@ == filter_label_view(old(self).filters@.len()),
            final(self).filters@.last().inputs@ == inputs@,
            r == (Stream {
                input_index: 0,
                stream_type: StreamType::Any,
                may_not: false,
                stream_index: None,
                label: Some(final(self).filters@.last().label.0),
            }),
    {
        let n = self.filters.len();
        let mut label = String::from_str("f");
        let num = strutil::u64_to_string(n as u64);
        label.append(num.as_str());
        let label_copy = label.clone();
        let labelled = Filter { label: Label(label), inputs, ..filter };
        self.filters.push(labelled);
        assert(final(self).filters@.drop_last() =~= old(self).filters@);
        Stream::any(0).with_label(label_copy)
    }

    /// Append a source filter with no input references; a selector for its
    /// output is returned.
    pub fn add_filter_without_inputs(&mut self, filter: Filter) -> (r: Stream)
        ensures
            final(self).ffmpeg_options == old(self).ffmpeg_options,
            final(self).inputs == old(self).inputs,
            final(self).outputs == old(self).outputs,
            final(self).input_counter == old(self).input_counter,
            final(self).filters@.len() == old(self).filters@.len() + 1,
            final(self).filters@.drop_last() == old(self).filters@,
            forall|i: int|
                0 <= i < old(self).filters@.len() ==> #[trigger] final(self).filters@[i] == old(
                    self,
                ).filters@[i],
            final(self).filters@.last() == (Filter {
                label: final(self).filters@.last().label,
                ..filter
            }),
            final(self).filters@.last().label.0@ == filter_label_view(old(self).filters@.len()),
            r == (Stream {
                input_index: 0,
                stream_type: StreamType::Any,
                may_not: false,
                stream_index: None,
                label: Some(final(self).filters@.last().label.0),
            }),
    {
        let n = self.filters.len();
        let mut label = String::from_str("f");
        let num = strutil::u64_to_string(n as u64);
        label.append(num.as_str());
        let label_copy = label.clone();
        let labelled = Filter { label: Label(label), ..filter };
        self.filters.push(labelled);
        assert(final(self).filters@.drop_last() =~= old(self).filters@);
        Stream::any(0).with_label(label_copy)
    }

    /// Append an output.
    pub fn add_output(&mut self, output: Output)
        ensures
            *final(self) == (FFmpeg { outputs: final(self).outputs, ..*old(self) }),
            final(self).outputs@ == old(self).outputs@.push(output),
    {
        self.outputs.push(output);
    }

    /// Render the filter graph, ";"-separated.
    pub fn build_filter_complex(&self) -> (r: String)
        ensures
            r@ == chain_view(self.filters@),
    {
        let n = self.filters.len();
        let mut r = String::new();
        let mut i: usize = 0;
        while i < n
            invariant
                n == self.filters@.len(),
                0 <= i <= n,
                r@ == chain_view(self.filters@.subrange(0, i as int)),
            decreases n - i,
        {
            proof {
                let t = self.filters@.subrange(0, i + 1);
                assert(t.drop_last() =~= self.filters@.subrange(0, i as int));
                assert(t.last() == self.filters@[i as int]);
            }
            if i > 0 {
                r.append(";");
            }
            let text = self.filters[i].build();
            r.append(text.as_str());
            assert(r@ =~= chain_view(self.filters@.subrange(0, i + 1)));
            i = i + 1;
        }
        assert(self.filters@.subrange(0, n as int) =~= self.filters@);
        r
    }

    /// The full command-line argument list.
    pub fn build_args(&self) -> (r: Vec<String>)
        ensures
            string_views(r@) == ffmpeg_args_view(*self),
    {
        let mut args: Vec<String> = Vec::new();
        strutil::push_arg(&mut args, "-v");
        strutil::push_arg(&mut args, self.ffmpeg_options.log_level.as_str());
        if self.ffmpeg_options.overwrite {
            strutil::push_arg(&mut args, "-y");
        }
        let ghost p_head = string_views(args@);
        let nc = self.ffmpeg_options.custom_args.len();
        let mut i: usize = 0;
        while i < nc
            invariant
                nc == self.ffmpeg_options.custom_args@.len(),
                0 <= i <= nc,
                string_views(args@) == p_head + string_views(
                    self.ffmpeg_options.custom_args@.subrange(0, i as int),
                ),
            decreases nc - i,
        {
            strutil::push_arg_string(&mut args, self.ffmpeg_options.custom_args[i].clone());
            assert(string_views(args@) =~= p_head + string_views(
                self.ffmpeg_options.custom_args@.subrange(0, i + 1),
            ));
            i = i + 1;
        }
        assert(self.ffmpeg_options.custom_args@.subrange(0, nc as int)
            =~= self.ffmpeg_options.custom_args@);

        let ghost p_custom = string_views(args@);
        let ni = self.inputs.len();
        let mut i: usize = 0;
        while i < ni
            invariant
                ni == self.inputs@.len(),
                0 <= i <= ni,
                string_views(args@) == p_custom + inputs_args_view(
                    self.inputs@.subrange(0, i as int),
                ),
            decreases ni - i,
        {
            proof {
                let t = self.inputs@.subrange(0, i + 1);
                assert(t.drop_last() =~= self.inputs@.subrange(0, i as int));
                assert(t.last() == self.inputs@[i as int]);
            }
            let mut input_args = self.inputs[i].to_args();
            let ghost ia = string_views(input_args@);
            let ghost pre = args@;
            args.append(&mut input_args);
            proof {
                assert(string_views(args@) =~= string_views(pre) + ia);
                assert(string_views(args@) =~= p_custom + inputs_args_view(
                    self.inputs@.subrange(0, i + 1),
                ));
            }
            i = i + 1;
        }
        assert(self.inputs@.subrange(0, ni as int) =~= self.inputs@);

        let ghost p_inputs = string_views(args@);
        if self.filters.len() > 0 {
            let complex = self.build_filter_complex();
            if !complex.as_str().is_empty() {
                strutil::push_arg(&mut args, "-filter_complex");
                strutil::push_arg_string(&mut args, complex);
            }
        }
        assert(string_views(args@) =~= p_inputs + (if self.filters@.len() > 0 && chain_view(
            self.filters@,
        ).len() > 0 {
            seq!["-filter_complex"@, chain_view(self.filters@)]
        } else {
            Seq::<Seq<char>>::empty()
        }));

        let ghost p_filters = string_views(args@);
        let no = self.outputs.len();
        let mut i: usize = 0;
        while i < no
            invariant
                no == self.outputs@.len(),
                0 <= i <= no,
                string_views(args@) == p_filters + outputs_args_view(
                    self.outputs@.subrange(0, i as int),
                ),
            decreases no - i,
        {
            proof {
                let t = self.outputs@.subrange(0, i + 1);
                assert(t.drop_last() =~= self.outputs@.subrange(0, i as int));
                assert(t.last() == self.outputs@[i as int]);
            }
            let mut output_args = self.outputs[i].to_args();
            let ghost oa = string_views(output_args@);
            let ghost pre = args@;
            args.append(&mut output_args);
            proof {
                assert(string_views(args@) =~= string_views(pre) + oa);
                assert(string_views(args@) =~= p_filters + outputs_args_view(
                    self.outputs@.subrange(0, i + 1),
                ));
            }
            i = i + 1;
        }
        assert(self.outputs@.subrange(0, no as int) =~= self.outputs@);
        assert(string_views(args@) =~= ffmpeg_args_view(*self));
        args
    }
}

} // verus!
