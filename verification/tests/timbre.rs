use tenori_ish::envelope::Envelope;
use tenori_ish::noise::NoteType;
use tenori_ish::timbre::{Distortion, Layer, Reverb, Timbre, MIX_CHANNELS, MIX_SAMPLE_RATE};

fn silent() -> Timbre {
    Timbre {
        sine: 0,
        triangle: 0,
        square: 0,
        sawtooth: 0,
        noise: 0,
        d_gain: 1_000_000,
        d_thresh: None,
        reverb: 0,
        reverb_duration: 0,
        filter: false,
        filter_q: 50_000_000,
        envelope: Envelope::default(),
    }
}

#[test]
fn the_default_timbre_is_a_square_wave() {
    let t = Timbre::default();
    assert_eq!(t.sine, 0);
    assert_eq!(t.triangle, 0);
    assert_eq!(t.square, 1_000_000);
    assert_eq!(t.sawtooth, 0);
    assert_eq!(t.noise, 0);
    assert_eq!(t.d_gain, 1_000_000);
    assert_eq!(t.d_thresh, Some(10_000_000));
    assert_eq!(t.reverb, 0);
    assert_eq!(t.reverb_duration, 0);
    assert!(!t.filter);
    assert_eq!(t.filter_q, 50_000_000);
    assert_eq!(t.envelope, Envelope::default());

    let chain = t.source();
    assert_eq!(chain.layers, vec![Layer { kind: NoteType::Square, amplitude: 1_000_000 }]);
    assert_eq!(
        chain.distortion,
        Some(Distortion { gain: 1_000_000, threshold: Some(10_000_000) })
    );
    assert_eq!(chain.reverb, None);
}

#[test]
fn the_mix_is_mono_at_cd_rate() {
    assert_eq!(MIX_CHANNELS, 1);
    assert_eq!(MIX_SAMPLE_RATE, 44_100);
}

#[test]
fn a_weight_of_zero_adds_no_layer() {
    let chain = silent().source();
    assert_eq!(chain.layers, vec![]);
    assert_eq!(chain.distortion, None);
    assert_eq!(chain.reverb, None);
}

#[test]
fn layers_come_in_a_fixed_order_with_their_weights() {
    let t = Timbre { sine: 1, triangle: 200_000, square: 300_000, sawtooth: 400_000, noise: 500_000, ..silent() };
    assert_eq!(
        t.source().layers,
        vec![
            Layer { kind: NoteType::Sine, amplitude: 1 },
            Layer { kind: NoteType::Triangle, amplitude: 200_000 },
            Layer { kind: NoteType::Square, amplitude: 300_000 },
            Layer { kind: NoteType::Sawtooth, amplitude: 400_000 },
            Layer { kind: NoteType::Noise, amplitude: 500_000 },
        ]
    );
    let t = Timbre { sine: 700_000, noise: 100_000, ..silent() };
    assert_eq!(
        t.source().layers,
        vec![
            Layer { kind: NoteType::Sine, amplitude: 700_000 },
            Layer { kind: NoteType::Noise, amplitude: 100_000 },
        ]
    );
}

#[test]
fn distortion_needs_a_gain_or_a_threshold() {
    let t = Timbre { d_gain: 2_000_000, ..silent() };
    assert_eq!(t.source().distortion, Some(Distortion { gain: 2_000_000, threshold: None }));
    let t = Timbre { d_gain: -1_000_000, ..silent() };
    assert_eq!(t.source().distortion, Some(Distortion { gain: -1_000_000, threshold: None }));
    let t = Timbre { d_thresh: Some(0), ..silent() };
    assert_eq!(t.source().distortion, Some(Distortion { gain: 1_000_000, threshold: Some(0) }));
    assert_eq!(silent().source().distortion, None);
}

#[test]
fn reverb_needs_a_mix_and_a_delay() {
    let t = Timbre { reverb: 500_000, reverb_duration: 250_999, ..silent() };
    assert_eq!(t.source().reverb, Some(Reverb { duration_ms: 250, mix: 500_000 }));
    let t = Timbre { reverb: 500_000, reverb_duration: 999, ..silent() };
    assert_eq!(t.source().reverb, Some(Reverb { duration_ms: 0, mix: 500_000 }));
    let t = Timbre { reverb: 500_000, reverb_duration: 0, ..silent() };
    assert_eq!(t.source().reverb, None);
    let t = Timbre { reverb: 0, reverb_duration: 250_000, ..silent() };
    assert_eq!(t.source().reverb, None);
}
