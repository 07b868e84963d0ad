use std::hint::black_box;

use tape_saturation::filter::{ChannelBlock, TapeSaturation};
use tape_saturation::numerics::{
    clamp_param, HUNDRED_BITS, ONE_BITS, PARAM_FLOOR_BITS, POS_INFINITY_BITS, POS_ZERO_BITS,
};

/// The per-sample recurrence evaluated directly in hardware
/// single-precision arithmetic, for comparison against the library.
fn ref_update(output_prev: f32, input_prev: f32, input: f32, a: f32, b: f32) -> f32 {
    let delta_input = input - input_prev;
    output_prev + a * ((input * 2.0).tanh() - output_prev) * delta_input.abs()
        + b * delta_input / (input * 2.0).cosh().powi(2)
}

/// Build one channel's block: the input bit patterns together with the
/// curve samples the filter expects the host to compute.
fn block_for(samples: &[f32]) -> ChannelBlock {
    let mut inputs: Vec<u32> = Vec::new();
    let mut saturation: Vec<u32> = Vec::new();
    let mut slope_denom: Vec<u32> = Vec::new();
    for &x in samples {
        inputs.push(x.to_bits());
        saturation.push((x * 2.0).tanh().to_bits());
        slope_denom.push((x * 2.0).cosh().powi(2).to_bits());
    }
    ChannelBlock {
        inputs,
        saturation,
        slope_denom,
    }
}

/// Run the whole recurrence over a block with the reference arithmetic,
/// starting from cleared memory.
fn ref_outputs(samples: &[f32], a: f32, b: f32) -> Vec<f32> {
    let mut x_prev = 0.0f32;
    let mut y_prev = 0.0f32;
    let mut out: Vec<f32> = Vec::new();
    for &x in samples {
        let y = ref_update(y_prev, x_prev, x, a, b);
        out.push(y);
        x_prev = x;
        y_prev = y;
    }
    out
}

#[test]
fn bit_constants_match_hardware() {
    assert_eq!(POS_ZERO_BITS, 0.0f32.to_bits());
    assert_eq!(ONE_BITS, 1.0f32.to_bits());
    assert_eq!(HUNDRED_BITS, 100.0f32.to_bits());
    assert_eq!(POS_INFINITY_BITS, f32::INFINITY.to_bits());
    assert_eq!(PARAM_FLOOR_BITS, 0.001f32.to_bits());
}

#[test]
fn parameter_floor_clamps_low_writes() {
    let mut filter = TapeSaturation::default();
    filter.set_parameter(0, (-5.0f32).to_bits());
    assert_eq!(filter.get_parameter(0), 0.001f32.to_bits());
    filter.set_parameter(0, 0.5f32.to_bits());
    assert_eq!(filter.get_parameter(0), 0.5f32.to_bits());
    filter.set_parameter(1, 0.0f32.to_bits());
    assert_eq!(filter.get_parameter(1), 0.001f32.to_bits());
    filter.set_parameter(1, 7.25f32.to_bits());
    assert_eq!(filter.get_parameter(1), 7.25f32.to_bits());
}

#[test]
fn clamp_matches_float_max() {
    let samples = [
        -5.0f32,
        -0.0,
        0.0,
        1e-8,
        0.0009,
        0.001,
        0.002,
        0.25,
        1.0,
        1e20,
        f32::INFINITY,
        f32::NEG_INFINITY,
        f32::NAN,
        f32::MIN_POSITIVE,
    ];
    for &v in &samples {
        assert_eq!(
            clamp_param(v.to_bits()),
            v.max(0.001).to_bits(),
            "clamp disagrees with max for {v}"
        );
    }
}

#[test]
fn unknown_index_is_neutral() {
    let mut filter = TapeSaturation::default();
    filter.set_parameter(0, 0.75f32.to_bits());
    for index in [-1, 2, 3, 100] {
        assert_eq!(filter.get_parameter(index), 0.0f32.to_bits());
        assert_eq!(f32::from_bits(filter.get_parameter(index)), 0.0);
        assert_eq!(filter.get_parameter_name(index), "");
        assert_eq!(filter.get_parameter_label(index), "");
        assert_eq!(filter.get_parameter_text_bits(index), None);
    }
    // A write to an unknown index changes nothing.
    filter.set_parameter(2, 9.0f32.to_bits());
    assert_eq!(filter.get_parameter(0), 0.75f32.to_bits());
    assert_eq!(filter.get_parameter(1), 1.0f32.to_bits());
    assert_eq!(filter.get_parameter(2), 0.0f32.to_bits());
}

#[test]
fn parameter_names_and_labels() {
    let filter = TapeSaturation::default();
    assert_eq!(filter.get_parameter_name(0), "a");
    assert_eq!(filter.get_parameter_name(1), "b");
    assert_eq!(filter.get_parameter_label(0), "%");
    assert_eq!(filter.get_parameter_label(1), "%");
}

#[test]
fn display_scaling_renders_percentage() {
    let mut filter = TapeSaturation::default();
    filter.set_parameter(0, 0.25f32.to_bits());
    let scaled = filter.get_parameter_text_bits(0).unwrap();
    assert_eq!(scaled, 25.0f32.to_bits());
    assert_eq!(format!("{}", f32::from_bits(scaled)), "25");
    assert_eq!(filter.get_parameter_label(0), "%");
    // The default parameter renders as one hundred percent.
    let default_scaled = filter.get_parameter_text_bits(1).unwrap();
    assert_eq!(format!("{}", f32::from_bits(default_scaled)), "100");
}

#[test]
fn zero_input_is_a_fixed_point() {
    let mut filter = TapeSaturation::default();
    let silence = black_box([0.0f32; 64]);
    let (out_l, out_r) = filter.process(&block_for(&silence), &block_for(&silence));
    assert_eq!(out_l.len(), 64);
    assert_eq!(out_r.len(), 64);
    for &y in out_l.iter().chain(out_r.iter()) {
        assert_eq!(y, 0.0f32.to_bits());
    }
    assert_eq!(filter.input_l_prev, 0.0f32.to_bits());
    assert_eq!(filter.output_l_prev, 0.0f32.to_bits());
    assert_eq!(filter.input_r_prev, 0.0f32.to_bits());
    assert_eq!(filter.output_r_prev, 0.0f32.to_bits());
}

#[test]
fn memory_update_ordering_two_samples() {
    let mut filter = TapeSaturation::default();
    let samples = black_box([0.3f32, -0.4]);
    let (out_l, _) = filter.process(&block_for(&samples), &block_for(&[0.0, 0.0]));
    let y0 = ref_update(0.0, 0.0, samples[0], 1.0, 1.0);
    let y1 = ref_update(y0, samples[0], samples[1], 1.0, 1.0);
    assert_eq!(out_l, vec![y0.to_bits(), y1.to_bits()]);
    assert_eq!(filter.input_l_prev, (-0.4f32).to_bits());
    assert_eq!(filter.output_l_prev, y1.to_bits());
}

#[test]
fn channel_independence_under_swap() {
    let s1 = black_box([0.3f32, -0.2, 0.9, 0.05, -0.75, 0.6, 0.0, -1.0]);
    let silence = [0.0f32; 8];

    let mut driven_left = TapeSaturation::default();
    let (left_out, _) = driven_left.process(&block_for(&s1), &block_for(&silence));

    let mut driven_right = TapeSaturation::default();
    let (_, right_out) = driven_right.process(&block_for(&silence), &block_for(&s1));

    assert_eq!(left_out, right_out);
    let expected: Vec<u32> = ref_outputs(&s1, 1.0, 1.0)
        .into_iter()
        .map(|y| y.to_bits())
        .collect();
    assert_eq!(left_out, expected);
}

#[test]
fn end_to_end_single_sample() {
    let mut filter = TapeSaturation::default();
    let x = black_box(0.5f32);
    let (out_l, out_r) = filter.process(&block_for(&[x]), &block_for(&[-x]));
    let y_l = f32::from_bits(out_l[0]);
    let y_r = f32::from_bits(out_r[0]);
    assert!((y_l - 0.5908).abs() < 1e-3, "left output was {y_l}");
    assert!((y_r + 0.5908).abs() < 1e-3, "right output was {y_r}");
    assert_eq!(out_l[0], ref_update(0.0, 0.0, x, 1.0, 1.0).to_bits());
    assert_eq!(out_r[0], ref_update(0.0, 0.0, -x, 1.0, 1.0).to_bits());
    // Symmetry: the saturation curve is odd, so the mirrored input gives
    // the mirrored output.
    assert_eq!(y_r.to_bits(), (-y_l).to_bits());
}

#[test]
fn process_matches_reference_arithmetic() {
    // A varied signal with both parameters away from their defaults
    // exercises every arithmetic wrapper; any wrapper returning its
    // argument unchanged, or disagreeing with hardware IEEE-754
    // arithmetic, changes the bits.
    let mut signal: Vec<f32> = Vec::new();
    let mut v = black_box(0.1f32);
    for i in 0..50 {
        v = (v * 1.7 + 0.13).sin();
        signal.push(v * (1.0 + (i as f32) * 0.01));
    }
    let mut filter = TapeSaturation::default();
    filter.set_parameter(0, 0.7f32.to_bits());
    filter.set_parameter(1, 1.3f32.to_bits());
    let (out_l, _) = filter.process(&block_for(&signal), &block_for(&signal));

    let mut x_prev = 0.0f32;
    let mut y_prev = 0.0f32;
    for (i, &x) in signal.iter().enumerate() {
        let y = ref_update(y_prev, x_prev, x, 0.7, 1.3);
        assert_eq!(
            out_l[i],
            y.to_bits(),
            "sample {i} diverged: library {} vs reference {y}",
            f32::from_bits(out_l[i])
        );
        x_prev = x;
        y_prev = y;
    }
}

#[test]
fn memory_carries_across_blocks() {
    let signal = black_box([0.25f32, -0.6, 0.4, 0.9]);

    let mut whole = TapeSaturation::default();
    let (whole_out, _) = whole.process(&block_for(&signal), &block_for(&signal));

    let mut split = TapeSaturation::default();
    let (first, _) = split.process(&block_for(&signal[..2]), &block_for(&signal[..2]));
    let (second, _) = split.process(&block_for(&signal[2..]), &block_for(&signal[2..]));

    let mut rejoined = first.clone();
    rejoined.extend_from_slice(&second);
    assert_eq!(whole_out, rejoined);
    assert_eq!(whole.input_l_prev, split.input_l_prev);
    assert_eq!(whole.output_l_prev, split.output_l_prev);
}

#[test]
fn empty_block_is_a_no_op() {
    let mut filter = TapeSaturation::default();
    let x = black_box(0.5f32);
    filter.process(&block_for(&[x]), &block_for(&[x]));
    let x = filter.input_l_prev;
    let y = filter.output_l_prev;
    let (out_l, out_r) = filter.process(&block_for(&[]), &block_for(&[]));
    assert!(out_l.is_empty());
    assert!(out_r.is_empty());
    assert_eq!(filter.input_l_prev, x);
    assert_eq!(filter.output_l_prev, y);
}

#[test]
fn saturate_sample_matches_reference() {
    let x_prev = black_box(0.2f32);
    let y_prev = black_box(0.15f32);
    let x = black_box(-0.8f32);
    let output = tape_saturation::filter::saturate_sample(
        0.9f32.to_bits(),
        1.1f32.to_bits(),
        x_prev.to_bits(),
        y_prev.to_bits(),
        x.to_bits(),
        (x * 2.0).tanh().to_bits(),
        (x * 2.0).cosh().powi(2).to_bits(),
    );
    assert_eq!(output, ref_update(y_prev, x_prev, x, 0.9, 1.1).to_bits());
}

#[test]
fn plugin_info_constants() {
    let filter = TapeSaturation::default();
    let info = filter.get_info();
    assert_eq!(info.name, "TapeSaturation");
    assert_eq!(info.vendor, "micah");
    assert_eq!(info.unique_id, 23781428);
    assert_eq!(info.inputs, 2);
    assert_eq!(info.outputs, 2);
    assert_eq!(info.parameters, 2);
}
