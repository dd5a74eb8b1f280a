//! Timbres: how a voice is layered from waveform generators and effects.

use vstd::prelude::*;
use crate::envelope::Envelope;
use crate::noise::NoteType;
use crate::units::UNITY;

verus! {

/// Channel count of the mix a voice is rendered into.
pub const MIX_CHANNELS: u16 = 1;

/// Frames per second of the mix a voice is rendered into.
pub const MIX_SAMPLE_RATE: u32 = 44_100;

/// Microseconds in one millisecond.
pub const MICROS_PER_MILLI: u32 = 1_000;

/// A voice's generator weights, effect settings and envelope. Weights,
/// gains and levels are in millionths, durations in microseconds.
#[derive(Copy, Clone, Debug, PartialEq, Eq)]
pub struct Timbre {
    pub sine: u32,
    pub triangle: u32,
    pub square: u32,
    pub sawtooth: u32,
    pub noise: u32,
    /// Gain applied before clipping.
    pub d_gain: i32,
    /// Level samples are clipped to; `None` is no clipping at all.
    pub d_thresh: Option<u32>,
    /// Share of the reverberated signal in the output.
    pub reverb: u32,
    /// Delay of the reverberation.
    pub reverb_duration: u32,
    pub filter: bool,
    pub filter_q: u32,
    pub envelope: Envelope,
}

/// One generator of a voice and the amplitude it is mixed in with.
#[derive(Copy, Clone, Debug, PartialEq, Eq)]
pub struct Layer {
    pub kind: NoteType,
    pub amplitude: u32,
}

/// A gain followed by a hard clip.
#[derive(Copy, Clone, Debug, PartialEq, Eq)]
pub struct Distortion {
    pub gain: i32,
    pub threshold: Option<u32>,
}

/// A delayed copy of the signal mixed back into it.
#[derive(Copy, Clone, Debug, PartialEq, Eq)]
pub struct Reverb {
    /// Delay in whole milliseconds.
    pub duration_ms: u64,
    pub mix: u32,
}

/// The stages a voice's raw signal is built from, in the order they apply:
/// the layers are added up, then distorted, then reverberated.
#[derive(Clone, Debug, PartialEq, Eq)]
pub struct SignalChain {
    pub layers: Vec<Layer>,
    pub distortion: Option<Distortion>,
    pub reverb: Option<Reverb>,
}

impl Default for Timbre {
    fn default() -> (t: Timbre)
        ensures
            t == Timbre::default_spec(),
    {
        Timbre {
            sine: 0,
            triangle: 0,
            square: UNITY,
            sawtooth: 0,
            noise: 0,
            d_gain: UNITY as i32,
            d_thresh: Some(10_000_000),
            reverb: 0,
            reverb_duration: 0,
            filter: false,
            filter_q: 50_000_000,
            envelope: Envelope::default(),
        }
    }
}

impl Timbre {
    /// The timbre of a new track, a plain square wave: no effect but a clip
    /// at ten times full scale, and the default envelope.
    pub open spec fn default_spec() -> Timbre {
        Timbre {
            sine: 0,
            triangle: 0,
            square: UNITY,
            sawtooth: 0,
            noise: 0,
            d_gain: UNITY as i32,
            d_thresh: Some(10_000_000u32),
            reverb: 0,
            reverb_duration: 0,
            filter: false,
            filter_q: 50_000_000,
            envelope: Envelope::default_spec(),
        }
    }

    /// The layer a generator contributes: none at weight zero.
    pub open spec fn layer(kind: NoteType, weight: u32) -> Seq<Layer> {
        if weight > 0 {
            seq![Layer { kind, amplitude: weight }]
        } else {
            Seq::empty()
        }
    }

    /// The layers of the voice: every generator with a positive weight, in
    /// the order sine, triangle, square, sawtooth, noise.
    pub open spec fn layers(self) -> Seq<Layer> {
        Self::layer(NoteType::Sine, self.sine) + Self::layer(NoteType::Triangle, self.triangle)
            + Self::layer(NoteType::Square, self.square) + Self::layer(
            NoteType::Sawtooth,
            self.sawtooth,
        ) + Self::layer(NoteType::Noise, self.noise)
    }

    /// The distortion stage: present unless the gain is exactly 1 and
    /// nothing is clipped.
    pub open spec fn distortion(self) -> Option<Distortion> {
        if self.d_gain != UNITY || self.d_thresh is Some {
            Some(Distortion { gain: self.d_gain, threshold: self.d_thresh })
        } else {
            None
        }
    }

    /// The reverb stage: present when both its mix and its delay are non-zero.
    pub open spec fn reverberation(self) -> Option<Reverb> {
        if self.reverb != 0 && self.reverb_duration != 0 {
            Some(
                Reverb {
                    duration_ms: (self.reverb_duration / MICROS_PER_MILLI) as u64,
                    mix: self.reverb,
                },
            )
        } else {
            None
        }
    }

    /// Lays out the raw, un-enveloped signal of a voice with this timbre.
    pub fn source(self) -> (chain: SignalChain)
        ensures
            chain.layers@ == self.layers(),
            chain.distortion == self.distortion(),
            chain.reverb == self.reverberation(),
    {
        let mut layers: Vec<Layer> = Vec::new();
        if self.sine > 0 {
            layers.push(Layer { kind: NoteType::Sine, amplitude: self.sine });
        }
        if self.triangle > 0 {
            layers.push(Layer { kind: NoteType::Triangle, amplitude: self.triangle });
        }
        if self.square > 0 {
            layers.push(Layer { kind: NoteType::Square, amplitude: self.square });
        }
        if self.sawtooth > 0 {
            layers.push(Layer { kind: NoteType::Sawtooth, amplitude: self.sawtooth });
        }
        if self.noise > 0 {
            layers.push(Layer { kind: NoteType::Noise, amplitude: self.noise });
        }
        let distortion: Option<Distortion> = if self.d_gain != UNITY as i32
            || self.d_thresh.is_some() {
            Some(Distortion { gain: self.d_gain, threshold: self.d_thresh })
        } else {
            None
        };
        let reverb: Option<Reverb> = if self.reverb != 0 && self.reverb_duration != 0 {
            Some(
                Reverb {
                    duration_ms: (self.reverb_duration / MICROS_PER_MILLI) as u64,
                    mix: self.reverb,
                },
            )
        } else {
            None
        };
        SignalChain { layers, distortion, reverb }
    }
}

} // verus!
