use morsify::signal::envelope_gain;
use morsify::signal::Signal;
use morsify::signal::FULL_GAIN;

#[test]
fn sample_count_scales_linearly_with_duration() {
    assert_eq!(Signal::new(50).sample_count(), 2400);
    assert_eq!(Signal::new(150).sample_count(), 7200);
    assert_eq!(Signal::new(0).sample_count(), 0);
    assert_eq!(Signal::new(1000).sample_count(), 48000);
}

#[test]
fn zero_duration_yields_empty_sequence() {
    let mut s = Signal::new(0);
    assert_eq!(s.next_gain(), None);
    assert_eq!(s.next_gain(), None);
}

#[test]
fn signal_is_exhausted_exactly_at_sample_count() {
    let mut s = Signal::new(50);
    let mut produced = 0usize;
    while let Some(_) = s.next_gain() {
        produced += 1;
        assert!(produced <= 2400);
    }
    assert_eq!(produced, 2400);
    assert_eq!(s.remaining(), 0);
    // non-restartable: once exhausted it stays exhausted
    assert_eq!(s.next_gain(), None);
}

#[test]
fn remaining_counts_down() {
    let mut s = Signal::new(50);
    assert_eq!(s.remaining(), 2400);
    s.next_gain();
    assert_eq!(s.remaining(), 2399);
}

#[test]
fn envelope_fades_in_over_first_250_samples() {
    let total = 2400usize; // one 50 ms dot
    let mut prev = envelope_gain(total, 0);
    assert_eq!(prev, 250);
    for i in 1..250usize {
        let g = envelope_gain(total, i);
        assert!(g > prev, "gain must rise strictly at sample {i}");
        prev = g;
    }
    assert_eq!(prev, FULL_GAIN);
}

#[test]
fn envelope_is_unshaped_in_the_middle() {
    let total = 2400usize;
    for i in [249usize, 250, 1200, 2149, 2150] {
        assert_eq!(envelope_gain(total, i), FULL_GAIN);
    }
}

#[test]
fn envelope_fades_out_over_last_250_samples() {
    let total = 2400usize;
    let mut prev = envelope_gain(total, total - 250);
    assert_eq!(prev, FULL_GAIN);
    for i in (total - 249)..total {
        let g = envelope_gain(total, i);
        assert!(g < prev, "gain must fall strictly at sample {i}");
        prev = g;
    }
    assert_eq!(prev, 250);
}

#[test]
fn short_tone_is_scaled_down_with_outbound_taper() {
    // a 2 ms tone has 96 samples, below the 250-sample envelope threshold
    let total = 96usize;
    assert_eq!(envelope_gain(total, 0), 96 * 96);
    assert_eq!(envelope_gain(total, 95), 96);
    let mut prev = envelope_gain(total, 0);
    for i in 1..total {
        let g = envelope_gain(total, i);
        assert!(g < prev);
        prev = g;
    }
}

#[test]
fn signal_hands_out_the_envelope_gains_in_order() {
    let mut s = Signal::new(50);
    for i in 0..2400usize {
        assert_eq!(s.next_gain(), Some(envelope_gain(2400, i)));
    }
    assert_eq!(s.next_gain(), None);
}
