use prismatic_viz::channel::{ColorChannel, StepType};

fn channel(start: f32, end: f32, steps: usize, step_type: StepType) -> ColorChannel {
    ColorChannel { start: start.to_bits(), end: end.to_bits(), steps, step_type }
}

fn sample(ch: &ColorChannel, not_vertex: bool) -> Vec<f32> {
    ch.generate(not_vertex).iter().map(|c| f32::from_bits(c.value)).collect()
}

#[test]
fn generate_is_deterministic() {
    let ch = channel(0.125, 0.875, 7, StepType::Reverse);
    let first = ch.generate(true);
    let second = ch.generate(true);
    assert_eq!(first.len(), second.len());
    for (a, b) in first.iter().zip(second.iter()) {
        assert_eq!(a.value, b.value);
    }
}

#[test]
fn generate_length_vertex_and_not() {
    let ch = channel(0.0, 1.0, 8, StepType::Forward);
    assert_eq!(ch.generate(false).len(), 8);
    assert_eq!(ch.generate(true).len(), 9);
    let one = channel(0.0, 1.0, 1, StepType::Forward);
    assert_eq!(one.generate(false).len(), 1);
    assert_eq!(one.generate(true).len(), 2);
}

#[test]
fn inclusive_hits_both_bounds() {
    let ch = channel(0.0, 1.0, 5, StepType::Inclusive);
    let values = sample(&ch, false);
    assert_eq!(values.len(), 5);
    assert_eq!(values[0].to_bits(), 0.0f32.to_bits());
    assert_eq!(values[4].to_bits(), 1.0f32.to_bits());
}

#[test]
fn forward_samples_match_formula() {
    let ch = channel(0.0, 1.0, 4, StepType::Forward);
    let values = sample(&ch, false);
    let step = (1.0f32 - 0.0f32) / 4.0f32;
    for (i, v) in values.iter().enumerate() {
        let expected = 0.0f32 + i as f32 * step;
        assert_eq!(v.to_bits(), expected.to_bits());
    }
}

#[test]
fn forward_samples_with_offset_range_match_formula() {
    let ch = channel(0.5, 1.0, 4, StepType::Forward);
    let values = sample(&ch, false);
    let step = (1.0f32 - 0.5f32) / 4.0f32;
    for (i, v) in values.iter().enumerate() {
        let expected = 0.5f32 + i as f32 * step;
        assert_eq!(v.to_bits(), expected.to_bits());
    }
}

#[test]
fn inclusive_divides_by_one_less_step() {
    let ch = channel(0.25, 0.75, 3, StepType::Inclusive);
    let values = sample(&ch, false);
    let step = (0.75f32 - 0.25f32) / 2.0f32;
    assert_eq!(values[0].to_bits(), 0.25f32.to_bits());
    assert_eq!(values[1].to_bits(), (0.25f32 + step).to_bits());
    assert_eq!(values[2].to_bits(), (0.25f32 + 2.0f32 * step).to_bits());
}

#[test]
fn reverse_is_forward_shifted_by_one_step() {
    let fwd = channel(0.0, 1.0, 4, StepType::Forward);
    let rev = channel(0.0, 1.0, 4, StepType::Reverse);
    let f = sample(&fwd, false);
    let r = sample(&rev, false);
    assert_eq!(f.len(), 4);
    assert_eq!(r.len(), 4);
    for i in 0..3 {
        assert_eq!(r[i].to_bits(), f[i + 1].to_bits());
    }
    let step = (1.0f32 - 0.0f32) / 4.0f32;
    assert_eq!(r[3].to_bits(), (0.0f32 + 4.0f32 * step).to_bits());
}

#[test]
fn inclusive_single_step_falls_back_to_forward() {
    let inc = channel(0.25, 0.75, 1, StepType::Inclusive);
    let fwd = channel(0.25, 0.75, 1, StepType::Forward);
    let vi = sample(&inc, false);
    let vf = sample(&fwd, false);
    assert_eq!(vi.len(), 1);
    assert_eq!(vi[0].to_bits(), vf[0].to_bits());
}

#[test]
fn default_channel_is_unit_range_eight_forward_steps() {
    let ch = ColorChannel::default();
    assert_eq!(ch.start, 0.0f32.to_bits());
    assert_eq!(ch.end, 1.0f32.to_bits());
    assert_eq!(ch.steps, 8);
    assert!(matches!(ch.step_type, StepType::Forward));
}
