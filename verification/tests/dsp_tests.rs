use soundscapes::ambient::{ChainParams, PannedSource};
use soundscapes::ring::{AmbientSampleBuffer, AnalyzingSource, FftSampleBuffer, FFT_BUFFER_SIZE};
use soundscapes::settings::AmbientSettings;

#[test]
fn pan_center_leaves_both_channels_untouched() {
    let mut p = PannedSource::new(2, 0);
    assert_eq!(p.next_gain(), 1000);
    assert_eq!(p.next_gain(), 1000);
}

#[test]
fn pan_full_left_silences_right() {
    let mut p = PannedSource::new(2, -1000);
    assert_eq!(p.next_gain(), 1000); // left channel whole
    assert_eq!(p.next_gain(), 0); // right channel silent
}

#[test]
fn pan_full_right_silences_left() {
    let mut p = PannedSource::new(2, 1000);
    assert_eq!(p.next_gain(), 0); // left channel silent
    assert_eq!(p.next_gain(), 1000); // right channel whole
}

#[test]
fn pan_half_right_attenuates_left_linearly() {
    let mut p = PannedSource::new(2, 500);
    assert_eq!(p.next_gain(), 500);
    assert_eq!(p.next_gain(), 1000);
}

#[test]
fn pan_has_no_effect_on_mono() {
    let mut p = PannedSource::new(1, -1000);
    assert_eq!(p.next_gain(), 1000);
    assert_eq!(p.next_gain(), 1000);
}

#[test]
fn pan_input_is_clamped() {
    let mut p = PannedSource::new(2, 5000);
    assert_eq!(p.next_gain(), 0);
    assert_eq!(p.next_gain(), 1000);
}

#[test]
fn reverb_passthrough_below_one_thousandth() {
    let mut s = AmbientSettings::default();
    s.algorithmic_reverb = 0;
    let chain = ChainParams::from_settings(&s);
    assert!(chain.reverb_is_passthrough());
    s.algorithmic_reverb = 1;
    let chain2 = ChainParams::from_settings(&s);
    assert!(!chain2.reverb_is_passthrough());
}

#[test]
fn chain_carries_the_settings() {
    let mut s = AmbientSettings::default();
    s.pitch = 1500;
    s.pan = -250;
    s.low_pass_freq = 800;
    s.algorithmic_reverb = 300;
    let chain = ChainParams::from_settings(&s);
    assert_eq!(chain.pitch, 1500);
    assert_eq!(chain.pan, -250);
    assert_eq!(chain.low_pass_freq, 800);
    assert_eq!(chain.reverb_mix, 300);
}

#[test]
fn ring_returns_latest_samples_in_order() {
    let mut ring = FftSampleBuffer::new();
    ring.push(10);
    ring.push(20);
    ring.push(30);
    let latest = ring.get_latest(3);
    assert_eq!(latest, vec![10, 20, 30]);
    let latest2 = ring.get_latest(2);
    assert_eq!(latest2, vec![20, 30]);
}

#[test]
fn ring_wraps_and_overwrites_oldest() {
    let mut ring = FftSampleBuffer::new();
    for i in 0..(FFT_BUFFER_SIZE as u32 + 3) {
        ring.push(i);
    }
    let latest = ring.get_latest(2);
    assert_eq!(
        latest,
        vec![FFT_BUFFER_SIZE as u32 + 1, FFT_BUFFER_SIZE as u32 + 2]
    );
}

#[test]
fn ring_clear_zeroes_everything() {
    let mut ring = FftSampleBuffer::new();
    ring.push(77);
    ring.clear();
    let latest = ring.get_latest(4);
    assert_eq!(latest, vec![0, 0, 0, 0]);
}

#[test]
fn ambient_ring_behaves_like_music_ring() {
    let mut ring = AmbientSampleBuffer::new();
    ring.push(5);
    ring.push(6);
    assert_eq!(ring.get_latest(2), vec![5, 6]);
}

#[test]
fn analyzer_tap_passes_samples_through_and_records_them() {
    let ring = FftSampleBuffer::new();
    let mut tap = AnalyzingSource::new(ring);
    assert_eq!(tap.feed(41), 41);
    assert_eq!(tap.feed(42), 42);
    let latest = tap.ring().get_latest(2);
    assert_eq!(latest, vec![41, 42]);
}
