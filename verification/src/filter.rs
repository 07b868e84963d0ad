//! The stateful stereo saturation filter: two clamped gain parameters,
//! per-channel memory of the previous input and output sample, and the
//! per-sample recurrence that block processing folds over each channel.
//!
//! Reading the bit patterns as single-precision values, one step of the
//! recurrence computes
//! `output_prev + a * (tanh(2*input) - output_prev) * |input - input_prev|
//!  + b * (input - input_prev) / cosh(2*input)^2`.
//! The two transcendental curve samples, `tanh(2*input)` and
//! `cosh(2*input)^2`, depend only on the current input sample — never on
//! the filter's state — so the host evaluates them with its own math
//! library and hands them in alongside the inputs; everything stateful
//! (the delta, the weighting, the feedback through the previous output,
//! and the memory update ordering) is computed and verified here.

use vstd::prelude::*;

use crate::editor::TapeSaturationEditor;
use crate::numerics::POS_ZERO_BITS;
use crate::numerics::ONE_BITS;
use crate::numerics::HUNDRED_BITS;
use crate::numerics::abs_of;
use crate::numerics::add_of;
use crate::numerics::sub_of;
use crate::numerics::mul_of;
use crate::numerics::div_of;
use crate::numerics::clamp_of;
use crate::numerics::abs_bits;
use crate::numerics::add_bits;
use crate::numerics::sub_bits;
use crate::numerics::mul_bits;
use crate::numerics::div_bits;
use crate::numerics::clamp_param;

verus! {

/// One channel's share of an audio buffer, as bit patterns: the input
/// samples, and for each input sample the two saturation-curve values the
/// host's math library computed from it — `saturation[i]` is the
/// hyperbolic tangent of twice `inputs[i]`, and `slope_denom[i]` is the
/// squared hyperbolic cosine of twice `inputs[i]`, the divisor of the
/// derivative correction term. The filter folds its recurrence over these
/// triples; it does not recompute the curve.
pub struct ChannelBlock {
    pub inputs: Vec<u32>,
    pub saturation: Vec<u32>,
    pub slope_denom: Vec<u32>,
}

impl ChannelBlock {
    /// The three sequences describe the same samples: equal lengths.
    pub open spec fn wf(&self) -> bool {
        self.saturation@.len() == self.inputs@.len() && self.slope_denom@.len()
            == self.inputs@.len()
    }
}

/// One step of the saturation recurrence. `saturation` and `slope_denom`
/// are the curve samples for `input` (the hyperbolic tangent of twice the
/// input, and the squared hyperbolic cosine of twice the input). The
/// first additive term pulls the output toward the saturation curve only
/// while the input is changing — its weight is the magnitude of the
/// change — and the second is a signed correction scaled by the change
/// and divided by the curve's squared cosh. The operations associate
/// exactly as `saturate_sample` evaluates them.
pub open spec fn saturate_step(
    a: u32,
    b: u32,
    input_prev: u32,
    output_prev: u32,
    input: u32,
    saturation: u32,
    slope_denom: u32,
) -> u32 {
    let delta = sub_of(input, input_prev);
    let hysteresis = mul_of(mul_of(a, sub_of(saturation, output_prev)), abs_of(delta));
    let correction = div_of(mul_of(b, delta), slope_denom);
    add_of(add_of(output_prev, hysteresis), correction)
}

/// Compute one output sample from one input sample, its curve samples,
/// and the channel's memory of the previous input and output.
pub fn saturate_sample(
    a: u32,
    b: u32,
    input_prev: u32,
    output_prev: u32,
    input: u32,
    saturation: u32,
    slope_denom: u32,
) -> (output: u32)
    ensures
        output == saturate_step(a, b, input_prev, output_prev, input, saturation, slope_denom),
{
    let delta = sub_bits(input, input_prev);
    let pull = sub_bits(saturation, output_prev);
    let hysteresis = mul_bits(mul_bits(a, pull), abs_bits(delta));
    let correction = div_bits(mul_bits(b, delta), slope_denom);
    add_bits(add_bits(output_prev, hysteresis), correction)
}

/// The channel memory (previous input, previous output) after folding the
/// recurrence over a block, starting from the given memory.
pub open spec fn memory_after(
    a: u32,
    b: u32,
    input_prev: u32,
    output_prev: u32,
    xs: Seq<u32>,
    ts: Seq<u32>,
    cs: Seq<u32>,
) -> (u32, u32)
    decreases xs.len(),
{
    if xs.len() == 0 {
        (input_prev, output_prev)
    } else {
        let m = memory_after(
            a,
            b,
            input_prev,
            output_prev,
            xs.drop_last(),
            ts.drop_last(),
            cs.drop_last(),
        );
        (xs.last(), saturate_step(a, b, m.0, m.1, xs.last(), ts.last(), cs.last()))
    }
}

/// The output samples a channel produces for a block, starting from the
/// given memory: sample `i` is computed from the memory left behind by
/// samples `0..i`, so the memory advances strictly between samples.
pub open spec fn channel_outputs(
    a: u32,
    b: u32,
    input_prev: u32,
    output_prev: u32,
    xs: Seq<u32>,
    ts: Seq<u32>,
    cs: Seq<u32>,
) -> Seq<u32>
    decreases xs.len(),
{
    if xs.len() == 0 {
        Seq::<u32>::empty()
    } else {
        let m = memory_after(
            a,
            b,
            input_prev,
            output_prev,
            xs.drop_last(),
            ts.drop_last(),
            cs.drop_last(),
        );
        channel_outputs(
            a,
            b,
            input_prev,
            output_prev,
            xs.drop_last(),
            ts.drop_last(),
            cs.drop_last(),
        ).push(saturate_step(a, b, m.0, m.1, xs.last(), ts.last(), cs.last()))
    }
}

/// A block yields exactly one output sample per input sample.
pub proof fn lemma_channel_outputs_len(
    a: u32,
    b: u32,
    input_prev: u32,
    output_prev: u32,
    xs: Seq<u32>,
    ts: Seq<u32>,
    cs: Seq<u32>,
)
    ensures
        channel_outputs(a, b, input_prev, output_prev, xs, ts, cs).len() == xs.len(),
    decreases xs.len(),
{
    if xs.len() != 0 {
        lemma_channel_outputs_len(
            a,
            b,
            input_prev,
            output_prev,
            xs.drop_last(),
            ts.drop_last(),
            cs.drop_last(),
        );
    }
}

/// Process one channel's block: fold the recurrence over the samples in
/// order, returning the output samples and the memory after the block.
pub fn process_channel(
    a: u32,
    b: u32,
    input_prev: u32,
    output_prev: u32,
    block: &ChannelBlock,
) -> (r: (Vec<u32>, u32, u32))
    requires
        block.wf(),
    ensures
        r.0@ == channel_outputs(
            a,
            b,
            input_prev,
            output_prev,
            block.inputs@,
            block.saturation@,
            block.slope_denom@,
        ),
        (r.1, r.2) == memory_after(
            a,
            b,
            input_prev,
            output_prev,
            block.inputs@,
            block.saturation@,
            block.slope_denom@,
        ),
        r.0@.len() == block.inputs@.len(),
{
    let mut out: Vec<u32> = Vec::new();
    let mut x_prev = input_prev;
    let mut y_prev = output_prev;
    let n = block.inputs.len();
    let mut i: usize = 0;
    while i < n
        invariant
            i <= n,
            n == block.inputs@.len(),
            block.wf(),
            out@ == channel_outputs(
                a,
                b,
                input_prev,
                output_prev,
                block.inputs@.take(i as int),
                block.saturation@.take(i as int),
                block.slope_denom@.take(i as int),
            ),
            (x_prev, y_prev) == memory_after(
                a,
                b,
                input_prev,
                output_prev,
                block.inputs@.take(i as int),
                block.saturation@.take(i as int),
                block.slope_denom@.take(i as int),
            ),
        decreases n - i,
    {
        let x = block.inputs[i];
        let t = block.saturation[i];
        let c = block.slope_denom[i];
        let y = saturate_sample(a, b, x_prev, y_prev, x, t, c);
        out.push(y);
        x_prev = x;
        y_prev = y;
        i = i + 1;
        proof {
            assert(block.inputs@.take(i as int).drop_last() =~= block.inputs@.take(i - 1));
            assert(block.saturation@.take(i as int).drop_last() =~= block.saturation@.take(i - 1));
            assert(block.slope_denom@.take(i as int).drop_last() =~= block.slope_denom@.take(
                i - 1,
            ));
        }
    }
    proof {
        assert(block.inputs@.take(n as int) =~= block.inputs@);
        assert(block.saturation@.take(n as int) =~= block.saturation@);
        assert(block.slope_denom@.take(n as int) =~= block.slope_denom@);
        lemma_channel_outputs_len(
            a,
            b,
            input_prev,
            output_prev,
            block.inputs@,
            block.saturation@,
            block.slope_denom@,
        );
    }
    (out, x_prev, y_prev)
}

/// The identity the plugin reports to a host: pass-through constants.
pub struct PluginInfo {
    pub name: String,
    pub vendor: String,
    pub unique_id: i32,
    pub inputs: i32,
    pub outputs: i32,
    pub parameters: i32,
}

/// The stereo saturation filter: two percentage-scaled gain parameters
/// (each clamped to a small positive floor), the
/// per-channel memory of the previous input and output sample, and the
/// placeholder editor surface.
pub struct TapeSaturation {
    pub a: u32,
    pub b: u32,
    pub input_l_prev: u32,
    pub input_r_prev: u32,
    pub output_l_prev: u32,
    pub output_r_prev: u32,
    pub editor: TapeSaturationEditor,
}

impl Default for TapeSaturation {
    /// A fresh filter: both parameters one, all memory positive zero, the
    /// editor closed.
    fn default() -> (filter: TapeSaturation)
        ensures
            filter.a == ONE_BITS,
            filter.b == ONE_BITS,
            filter.input_l_prev == POS_ZERO_BITS,
            filter.input_r_prev == POS_ZERO_BITS,
            filter.output_l_prev == POS_ZERO_BITS,
            filter.output_r_prev == POS_ZERO_BITS,
            !filter.editor.is_open,
    {
        TapeSaturation {
            a: ONE_BITS,
            b: ONE_BITS,
            input_l_prev: POS_ZERO_BITS,
            input_r_prev: POS_ZERO_BITS,
            output_l_prev: POS_ZERO_BITS,
            output_r_prev: POS_ZERO_BITS,
            editor: TapeSaturationEditor { is_open: false },
        }
    }
}

impl TapeSaturation {
    /// Parameter read: `a` for index zero, `b` for index one, and
    /// positive zero for any other index (a defined no-op, not an error).
    pub fn get_parameter(&self, index: i32) -> (value: u32)
        ensures
            index == 0 ==> value == self.a,
            index == 1 ==> value == self.b,
            !(index == 0 || index == 1) ==> value == POS_ZERO_BITS,
    {
        match index {
            0 => self.a,
            1 => self.b,
            _ => POS_ZERO_BITS,
        }
    }

    /// Parameter write: the stored value is the written value clamped up
    /// to the parameter floor; an unknown index is silently ignored and
    /// nothing else of the filter ever changes.
    pub fn set_parameter(&mut self, index: i32, value: u32)
        ensures
            index == 0 ==> *final(self) == (TapeSaturation { a: clamp_of(value), ..*old(self) }),
            index == 1 ==> *final(self) == (TapeSaturation { b: clamp_of(value), ..*old(self) }),
            !(index == 0 || index == 1) ==> *final(self) == *old(self),
    {
        match index {
            0 => {
                self.a = clamp_param(value);
            },
            1 => {
                self.b = clamp_param(value);
            },
            _ => (),
        }
    }

    /// Parameter names: `a`, `b`, and the empty string for an unknown
    /// index.
    pub fn get_parameter_name(&self, index: i32) -> (name: String)
        ensures
            index == 0 ==> name@ == "a"@,
            index == 1 ==> name@ == "b"@,
            !(index == 0 || index == 1) ==> name@ == Seq::<char>::empty(),
    {
        match index {
            0 => String::from_str("a"),
            1 => String::from_str("b"),
            _ => {
                proof {
                    reveal_strlit("");
                    assert(""@ =~= Seq::<char>::empty());
                }
                String::from_str("")
            },
        }
    }

    /// The value whose default decimal rendering is the parameter's
    /// display text: the parameter scaled by one hundred (the percentage
    /// convention). An unknown index has no display value and renders as
    /// the empty string; turning the known-index value into decimal
    /// digits is host-side work on the single-precision value.
    pub fn get_parameter_text_bits(&self, index: i32) -> (scaled: Option<u32>)
        ensures
            index == 0 ==> scaled == (Some(mul_of(self.a, HUNDRED_BITS))),
            index == 1 ==> scaled == (Some(mul_of(self.b, HUNDRED_BITS))),
            !(index == 0 || index == 1) ==> scaled == (None::<u32>),
    {
        match index {
            0 => Some(mul_bits(self.a, HUNDRED_BITS)),
            1 => Some(mul_bits(self.b, HUNDRED_BITS)),
            _ => None,
        }
    }

    /// Parameter unit labels: the percent sign for both known indices,
    /// the empty string otherwise.
    pub fn get_parameter_label(&self, index: i32) -> (label: String)
        ensures
            index == 0 ==> label@ == "%"@,
            index == 1 ==> label@ == "%"@,
            !(index == 0 || index == 1) ==> label@ == Seq::<char>::empty(),
    {
        match index {
            0 => String::from_str("%"),
            1 => String::from_str("%"),
            _ => {
                proof {
                    reveal_strlit("");
                    assert(""@ =~= Seq::<char>::empty());
                }
                String::from_str("")
            },
        }
    }

    /// Process one stereo buffer: fold the recurrence over each channel's
    /// block in order, return the two output blocks, and advance each
    /// channel's memory to just after its last sample. Each channel's
    /// outputs and final memory are a function of the shared parameters
    /// and of that channel's own memory and block alone — the channels
    /// never read each other.
    pub fn process(&mut self, left: &ChannelBlock, right: &ChannelBlock) -> (outputs: (
        Vec<u32>,
        Vec<u32>,
    ))
        requires
            left.wf(),
            right.wf(),
        ensures
            outputs.0@ == channel_outputs(
                old(self).a,
                old(self).b,
                old(self).input_l_prev,
                old(self).output_l_prev,
                left.inputs@,
                left.saturation@,
                left.slope_denom@,
            ),
            outputs.1@ == channel_outputs(
                old(self).a,
                old(self).b,
                old(self).input_r_prev,
                old(self).output_r_prev,
                right.inputs@,
                right.saturation@,
                right.slope_denom@,
            ),
            (final(self).input_l_prev, final(self).output_l_prev) == memory_after(
                old(self).a,
                old(self).b,
                old(self).input_l_prev,
                old(self).output_l_prev,
                left.inputs@,
                left.saturation@,
                left.slope_denom@,
            ),
            (final(self).input_r_prev, final(self).output_r_prev) == memory_after(
                old(self).a,
                old(self).b,
                old(self).input_r_prev,
                old(self).output_r_prev,
                right.inputs@,
                right.saturation@,
                right.slope_denom@,
            ),
            final(self).a == old(self).a,
            final(self).b == old(self).b,
            final(self).editor == old(self).editor,
            outputs.0@.len() == left.inputs@.len(),
            outputs.1@.len() == right.inputs@.len(),
    {
        let a = self.a;
        let b = self.b;
        let (out_l, xl, yl) = process_channel(
            a,
            b,
            self.input_l_prev,
            self.output_l_prev,
            left,
        );
        self.input_l_prev = xl;
        self.output_l_prev = yl;
        let (out_r, xr, yr) = process_channel(
            a,
            b,
            self.input_r_prev,
            self.output_r_prev,
            right,
        );
        self.input_r_prev = xr;
        self.output_r_prev = yr;
        (out_l, out_r)
    }

    /// The editor surface, for the host to open and query.
    pub fn get_editor(&mut self) -> (editor: &mut TapeSaturationEditor)
        ensures
            *editor == old(self).editor,
            *final(self) == (TapeSaturation { editor: *final(editor), ..*old(self) }),
    {
        &mut self.editor
    }

    /// The identity constants a host uses for discovery: name, vendor,
    /// numeric identifier, and the stereo in/out and two-parameter shape.
    pub fn get_info(&self) -> (info: PluginInfo)
        ensures
            info.name@ == "TapeSaturation"@,
            info.vendor@ == "micah"@,
            info.unique_id == 23781428,
            info.inputs == 2,
            info.outputs == 2,
            info.parameters == 2,
    {
        PluginInfo {
            name: String::from_str("TapeSaturation"),
            vendor: String::from_str("micah"),
            unique_id: 23781428,
            inputs: 2,
            outputs: 2,
            parameters: 2,
        }
    }
}

/// Law: memory advances strictly between samples. For a two-sample block
/// the first output is computed from the pre-block memory, the second
/// from the first input and the first output — never from stale memory —
/// and the block leaves exactly the last input and output behind.
pub proof fn lemma_memory_update_ordering(
    a: u32,
    b: u32,
    input_prev: u32,
    output_prev: u32,
    xs: Seq<u32>,
    ts: Seq<u32>,
    cs: Seq<u32>,
)
    requires
        xs.len() == 2,
        ts.len() == 2,
        cs.len() == 2,
    ensures
        channel_outputs(a, b, input_prev, output_prev, xs, ts, cs) == seq![
            saturate_step(a, b, input_prev, output_prev, xs[0], ts[0], cs[0]),
            saturate_step(
                a,
                b,
                xs[0],
                saturate_step(a, b, input_prev, output_prev, xs[0], ts[0], cs[0]),
                xs[1],
                ts[1],
                cs[1],
            ),
        ],
        memory_after(a, b, input_prev, output_prev, xs, ts, cs) == (
            xs[1],
            saturate_step(
                a,
                b,
                xs[0],
                saturate_step(a, b, input_prev, output_prev, xs[0], ts[0], cs[0]),
                xs[1],
                ts[1],
                cs[1],
            ),
        ),
{
    reveal_with_fuel(channel_outputs, 3);
    reveal_with_fuel(memory_after, 3);
    assert(xs.drop_last().drop_last() =~= Seq::<u32>::empty());
    assert(ts.drop_last().drop_last() =~= Seq::<u32>::empty());
    assert(cs.drop_last().drop_last() =~= Seq::<u32>::empty());
    assert(xs.drop_last().last() == xs[0]);
    assert(ts.drop_last().last() == ts[0]);
    assert(cs.drop_last().last() == cs[0]);
    let y0 = saturate_step(a, b, input_prev, output_prev, xs[0], ts[0], cs[0]);
    assert(memory_after(a, b, input_prev, output_prev, xs.drop_last(), ts.drop_last(), cs.drop_last())
        == (xs[0], y0));
    assert(channel_outputs(a, b, input_prev, output_prev, xs.drop_last(), ts.drop_last(), cs.drop_last())
        =~= seq![y0]);
    assert(xs.last() == xs[1]);
    assert(channel_outputs(a, b, input_prev, output_prev, xs, ts, cs) =~= seq![
        saturate_step(a, b, input_prev, output_prev, xs[0], ts[0], cs[0]),
        saturate_step(
            a,
            b,
            xs[0],
            saturate_step(a, b, input_prev, output_prev, xs[0], ts[0], cs[0]),
            xs[1],
            ts[1],
            cs[1],
        ),
    ]);
}

/// One recurrence step at silence is silent: with finite positive
/// coefficients, cleared memory, a zero input, and the curve samples of a
/// zero input (the hyperbolic tangent of zero is zero; the squared
/// hyperbolic cosine of zero is one), the output is positive zero — both
/// terms vanish exactly.
pub proof fn lemma_zero_step(a: u32, b: u32)
    requires
        crate::numerics::is_pos_finite(a),
        crate::numerics::is_pos_finite(b),
    ensures
        saturate_step(a, b, POS_ZERO_BITS, POS_ZERO_BITS, POS_ZERO_BITS, POS_ZERO_BITS, ONE_BITS)
            == POS_ZERO_BITS,
{
}

/// Law: silence is a fixed point. With finite positive coefficients and
/// cleared memory, an all-zero input block — with the curve samples its
/// zeros induce — produces all-zero output and leaves the memory cleared.
pub proof fn lemma_zero_input_fixed_point(a: u32, b: u32, xs: Seq<u32>, ts: Seq<u32>, cs: Seq<u32>)
    requires
        crate::numerics::is_pos_finite(a),
        crate::numerics::is_pos_finite(b),
        ts.len() == xs.len(),
        cs.len() == xs.len(),
        forall|i: int| 0 <= i < xs.len() ==> xs[i] == POS_ZERO_BITS,
        forall|i: int| 0 <= i < xs.len() ==> ts[i] == POS_ZERO_BITS,
        forall|i: int| 0 <= i < xs.len() ==> cs[i] == ONE_BITS,
    ensures
        memory_after(a, b, POS_ZERO_BITS, POS_ZERO_BITS, xs, ts, cs) == ((
            POS_ZERO_BITS,
            POS_ZERO_BITS,
        )),
        forall|i: int|
            0 <= i < xs.len() ==> channel_outputs(
                a,
                b,
                POS_ZERO_BITS,
                POS_ZERO_BITS,
                xs,
                ts,
                cs,
            )[i] == POS_ZERO_BITS,
    decreases xs.len(),
{
    lemma_channel_outputs_len(a, b, POS_ZERO_BITS, POS_ZERO_BITS, xs, ts, cs);
    if xs.len() != 0 {
        lemma_zero_input_fixed_point(a, b, xs.drop_last(), ts.drop_last(), cs.drop_last());
        lemma_channel_outputs_len(
            a,
            b,
            POS_ZERO_BITS,
            POS_ZERO_BITS,
            xs.drop_last(),
            ts.drop_last(),
            cs.drop_last(),
        );
        lemma_zero_step(a, b);
        assert(xs.last() == POS_ZERO_BITS);
        assert(ts.last() == POS_ZERO_BITS);
        assert(cs.last() == ONE_BITS);
    }
}

/// Law: block boundaries are invisible. Processing a block and then a
/// second block from the memory the first left behind produces exactly
/// the outputs and memory of processing the concatenated block — the
/// host's choice of buffer length never changes the signal.
pub proof fn lemma_block_concat(
    a: u32,
    b: u32,
    input_prev: u32,
    output_prev: u32,
    xs: Seq<u32>,
    ts: Seq<u32>,
    cs: Seq<u32>,
    ys: Seq<u32>,
    us: Seq<u32>,
    vs: Seq<u32>,
)
    requires
        ts.len() == xs.len(),
        cs.len() == xs.len(),
        us.len() == ys.len(),
        vs.len() == ys.len(),
    ensures
        ({
            let m = memory_after(a, b, input_prev, output_prev, xs, ts, cs);
            channel_outputs(a, b, input_prev, output_prev, xs + ys, ts + us, cs + vs)
                == channel_outputs(a, b, input_prev, output_prev, xs, ts, cs) + channel_outputs(
                a,
                b,
                m.0,
                m.1,
                ys,
                us,
                vs,
            )
        }),
        ({
            let m = memory_after(a, b, input_prev, output_prev, xs, ts, cs);
            memory_after(a, b, input_prev, output_prev, xs + ys, ts + us, cs + vs)
                == memory_after(a, b, m.0, m.1, ys, us, vs)
        }),
    decreases ys.len(),
{
    let m = memory_after(a, b, input_prev, output_prev, xs, ts, cs);
    if ys.len() == 0 {
        assert(xs + ys =~= xs);
        assert(ts + us =~= ts);
        assert(cs + vs =~= cs);
        assert(channel_outputs(a, b, input_prev, output_prev, xs, ts, cs) + channel_outputs(
            a,
            b,
            m.0,
            m.1,
            ys,
            us,
            vs,
        ) =~= channel_outputs(a, b, input_prev, output_prev, xs, ts, cs));
    } else {
        lemma_block_concat(
            a,
            b,
            input_prev,
            output_prev,
            xs,
            ts,
            cs,
            ys.drop_last(),
            us.drop_last(),
            vs.drop_last(),
        );
        assert((xs + ys).drop_last() =~= xs + ys.drop_last());
        assert((ts + us).drop_last() =~= ts + us.drop_last());
        assert((cs + vs).drop_last() =~= cs + vs.drop_last());
        assert((xs + ys).last() == ys.last());
        assert((ts + us).last() == us.last());
        assert((cs + vs).last() == vs.last());
        let m_head = memory_after(
            a,
            b,
            input_prev,
            output_prev,
            xs + ys.drop_last(),
            ts + us.drop_last(),
            cs + vs.drop_last(),
        );
        let step_last = saturate_step(a, b, m_head.0, m_head.1, ys.last(), us.last(), vs.last());
        assert(channel_outputs(a, b, input_prev, output_prev, xs + ys, ts + us, cs + vs)
            == channel_outputs(
            a,
            b,
            input_prev,
            output_prev,
            xs + ys.drop_last(),
            ts + us.drop_last(),
            cs + vs.drop_last(),
        ).push(step_last));
        assert(channel_outputs(a, b, input_prev, output_prev, xs, ts, cs) + channel_outputs(
            a,
            b,
            m.0,
            m.1,
            ys,
            us,
            vs,
        ) =~= (channel_outputs(a, b, input_prev, output_prev, xs, ts, cs) + channel_outputs(
            a,
            b,
            m.0,
            m.1,
            ys.drop_last(),
            us.drop_last(),
            vs.drop_last(),
        )).push(step_last));
    }
}

/// Law: every output sample is computed from the memory its predecessor
/// left behind — the first from the pre-block memory, and each later
/// sample `i` from exactly the previous input and the previous output,
/// never from staler state.
pub proof fn lemma_outputs_follow_recurrence(
    a: u32,
    b: u32,
    input_prev: u32,
    output_prev: u32,
    xs: Seq<u32>,
    ts: Seq<u32>,
    cs: Seq<u32>,
    i: int,
)
    requires
        ts.len() == xs.len(),
        cs.len() == xs.len(),
        0 <= i < xs.len(),
    ensures
        ({
            let out = channel_outputs(a, b, input_prev, output_prev, xs, ts, cs);
            let m = memory_after(a, b, input_prev, output_prev, xs.take(i), ts.take(i), cs.take(i));
            out[i] == saturate_step(a, b, m.0, m.1, xs[i], ts[i], cs[i])
        }),
        ({
            let out = channel_outputs(a, b, input_prev, output_prev, xs, ts, cs);
            let m = memory_after(a, b, input_prev, output_prev, xs.take(i), ts.take(i), cs.take(i));
            i == 0 ==> m == ((input_prev, output_prev))
        }),
        ({
            let out = channel_outputs(a, b, input_prev, output_prev, xs, ts, cs);
            let m = memory_after(a, b, input_prev, output_prev, xs.take(i), ts.take(i), cs.take(i));
            i > 0 ==> m == ((xs[i - 1], out[i - 1]))
        }),
    decreases i,
{
    let out = channel_outputs(a, b, input_prev, output_prev, xs, ts, cs);
    let m = memory_after(a, b, input_prev, output_prev, xs.take(i), ts.take(i), cs.take(i));

    // The whole block is the first i + 1 samples followed by the rest, so
    // the output at i is the last output of the first i + 1 samples.
    assert(xs =~= xs.take(i + 1) + xs.skip(i + 1));
    assert(ts =~= ts.take(i + 1) + ts.skip(i + 1));
    assert(cs =~= cs.take(i + 1) + cs.skip(i + 1));
    lemma_block_concat(
        a,
        b,
        input_prev,
        output_prev,
        xs.take(i + 1),
        ts.take(i + 1),
        cs.take(i + 1),
        xs.skip(i + 1),
        ts.skip(i + 1),
        cs.skip(i + 1),
    );
    lemma_channel_outputs_len(
        a,
        b,
        input_prev,
        output_prev,
        xs.take(i + 1),
        ts.take(i + 1),
        cs.take(i + 1),
    );
    let out_head = channel_outputs(
        a,
        b,
        input_prev,
        output_prev,
        xs.take(i + 1),
        ts.take(i + 1),
        cs.take(i + 1),
    );
    assert(out[i] == out_head[i]);
    assert(xs.take(i + 1).drop_last() =~= xs.take(i));
    assert(ts.take(i + 1).drop_last() =~= ts.take(i));
    assert(cs.take(i + 1).drop_last() =~= cs.take(i));
    assert(xs.take(i + 1).last() == xs[i]);
    assert(ts.take(i + 1).last() == ts[i]);
    assert(cs.take(i + 1).last() == cs[i]);
    lemma_channel_outputs_len(
        a,
        b,
        input_prev,
        output_prev,
        xs.take(i),
        ts.take(i),
        cs.take(i),
    );
    assert(out_head[i] == saturate_step(a, b, m.0, m.1, xs[i], ts[i], cs[i]));

    if i > 0 {
        // The memory before sample i is the last input and the last
        // output of the first i samples.
        lemma_outputs_follow_recurrence(a, b, input_prev, output_prev, xs, ts, cs, i - 1);
        assert(xs.take(i).last() == xs[i - 1]);
        let m_prev = memory_after(
            a,
            b,
            input_prev,
            output_prev,
            xs.take(i - 1),
            ts.take(i - 1),
            cs.take(i - 1),
        );
        assert(xs.take(i).drop_last() =~= xs.take(i - 1));
        assert(ts.take(i).drop_last() =~= ts.take(i - 1));
        assert(cs.take(i).drop_last() =~= cs.take(i - 1));
        assert(xs.take(i).last() == xs[i - 1]);
        assert(ts.take(i).last() == ts[i - 1]);
        assert(cs.take(i).last() == cs[i - 1]);
        assert(m == (xs[i - 1], saturate_step(a, b, m_prev.0, m_prev.1, xs[i - 1], ts[i - 1], cs[i - 1])));
        assert(m.1 == out[i - 1]);
    }
}

} // verus!
