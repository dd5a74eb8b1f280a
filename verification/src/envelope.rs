//! Attack / decay / sustain / hold / release amplitude shaping.
//!
//! The shaper does not touch samples. For every sample its host pulls from
//! the wrapped signal it is asked once for the amplitude factor of that
//! sample, answered as an exact fraction, or for the end of the stream.

use vstd::prelude::*;
use crate::units::{MICROS_PER_SECOND, UNITY};

verus! {

/// The five parameters of an envelope. Durations are in microseconds, the
/// sustain level in millionths of full scale. A zero duration skips its phase.
#[derive(Copy, Clone, Debug, PartialEq, Eq, Structural)]
pub struct Envelope {
    pub attack: u32,
    pub decay: u32,
    pub sustain: u32,
    pub hold: u32,
    pub release: u32,
}

/// An amplitude factor, the exact fraction `num / den` with `den > 0`.
#[derive(Copy, Clone, Debug, PartialEq, Eq, Structural)]
pub struct Gain {
    pub num: i128,
    pub den: i128,
}

impl Default for Envelope {
    fn default() -> (e: Envelope)
        ensures
            e == Envelope::default_spec(),
    {
        Envelope { attack: 0, decay: 0, sustain: UNITY, hold: 500_000, release: 0 }
    }
}

impl Envelope {
    /// The envelope of a new timbre: no attack, no decay, the full level
    /// held for half a second, no release.
    pub open spec fn default_spec() -> Envelope {
        Envelope { attack: 0, decay: 0, sustain: UNITY, hold: 500_000, release: 0 }
    }

    /// Length of the whole envelope, in microseconds.
    pub open spec fn span(self) -> int {
        self.attack + self.decay + self.hold + self.release
    }

    /// The amplitude factor at frame `tick` of a signal with `rate` frames per
    /// second, as `(numerator, denominator)`, or `None` once the release phase
    /// is over.
    ///
    /// Positions are measured in millionths of a frame, `t = tick * 1_000_000`,
    /// so that a phase of `d` microseconds covers exactly `rate * d` of them:
    /// - attack: a ramp from 0 to 1, `t / (rate * attack)`;
    /// - decay: a ramp from 1 down to the sustain level;
    /// - hold: the sustain level;
    /// - release: a ramp from the sustain level down to 0.
    pub open spec fn gain_at(self, rate: int, tick: int) -> Option<(int, int)> {
        let t = tick * MICROS_PER_SECOND;
        let a = rate * self.attack;
        let d = rate * self.decay;
        let h = rate * self.hold;
        let r = rate * self.release;
        if t < a {
            Some((t, a))
        } else if t - a < d {
            Some((d * UNITY - (t - a) * (UNITY - self.sustain), d * UNITY))
        } else if t - a - d < h {
            Some((self.sustain as int, UNITY as int))
        } else if t - a - d - h < r {
            Some((self.sustain * (r - (t - a - d - h)), r * UNITY))
        } else {
            None
        }
    }

    /// The envelope lasts exactly as long as its four phases together: there
    /// is a gain at a frame if and only if the frame starts before the end of
    /// the release phase.
    pub proof fn lemma_ends_after_span(self, rate: int, tick: int)
        requires
            0 <= rate,
            0 <= tick,
        ensures
            self.gain_at(rate, tick) is Some <==> tick * MICROS_PER_SECOND < rate * self.span(),
    {
        assert(rate * self.span() == rate * self.attack + rate * self.decay + rate * self.hold
            + rate * self.release) by (nonlinear_arith)
            requires
                self.span() == self.attack + self.decay + self.hold + self.release,
        ;
        lemma_product_bounds(rate, rate, self.attack as int, self.attack as int);
        lemma_product_bounds(rate, rate, self.decay as int, self.decay as int);
        lemma_product_bounds(rate, rate, self.hold as int, self.hold as int);
        lemma_product_bounds(rate, rate, self.release as int, self.release as int);
    }

    /// Whenever there is a gain its denominator is positive, and with a
    /// sustain level of at most 1 the gain lies between 0 and 1.
    pub proof fn lemma_gain_is_a_fraction(self, rate: int, tick: int)
        requires
            0 <= rate,
            0 <= tick,
        ensures
            self.gain_at(rate, tick) matches Some((num, den)) ==> den > 0 && (self.sustain <= UNITY
                ==> 0 <= num <= den),
    {
        let t = tick * MICROS_PER_SECOND;
        let a = rate * self.attack;
        let d = rate * self.decay;
        let h = rate * self.hold;
        let r = rate * self.release;
        lemma_product_bounds(rate, rate, self.attack as int, self.attack as int);
        lemma_product_bounds(rate, rate, self.decay as int, self.decay as int);
        lemma_product_bounds(rate, rate, self.hold as int, self.hold as int);
        lemma_product_bounds(rate, rate, self.release as int, self.release as int);
        lemma_product_bounds(tick, tick, MICROS_PER_SECOND as int, MICROS_PER_SECOND as int);
        if t < a {
        } else if t - a < d {
            lemma_product_bounds(d, d, UNITY as int, UNITY as int);
            assert(d * UNITY >= UNITY) by (nonlinear_arith)
                requires
                    d >= 1,
            ;
            if self.sustain <= UNITY {
                lemma_product_bounds(t - a, d, UNITY - self.sustain, UNITY as int);
            }
        } else if t - a - d < h {
        } else if t - a - d - h < r {
            assert(r * UNITY >= UNITY) by (nonlinear_arith)
                requires
                    r >= 1,
            ;
            if self.sustain <= UNITY {
                lemma_product_bounds(self.sustain as int, UNITY as int, r - (t - a - d - h), r);
                assert(UNITY * r == r * UNITY) by (nonlinear_arith);
            }
        }
    }

    /// Starts shaping a signal of `channels` interleaved channels at
    /// `sample_rate` frames per second.
    pub fn modulate(&self, channels: u16, sample_rate: u32) -> (source: EnvelopeSource)
        requires
            channels > 0,
        ensures
            source.envelope() == *self,
            source.channels_spec() == channels,
            source.sample_rate_spec() == sample_rate,
            source.elapsed_spec() == 0,
    {
        EnvelopeSource { envelope: *self, channels, sample_rate, elapsed: 0 }
    }
}

/// A product of two bounded non-negative factors is bounded by the product
/// of the bounds.
proof fn lemma_product_bounds(x: int, x_max: int, y: int, y_max: int)
    requires
        0 <= x <= x_max,
        0 <= y <= y_max,
    ensures
        0 <= x * y <= x_max * y_max,
{
    assert(0 <= x * y <= x_max * y_max) by (nonlinear_arith)
        requires
            0 <= x <= x_max,
            0 <= y <= y_max,
    ;
}

/// The running state of one envelope over one signal: how many samples of
/// the signal have been consumed so far.
pub struct EnvelopeSource {
    envelope: Envelope,
    channels: u16,
    sample_rate: u32,
    elapsed: usize,
}

impl EnvelopeSource {
    #[verifier::type_invariant]
    spec fn inv(self) -> bool {
        self.channels > 0
    }

    /// The envelope being applied.
    pub closed spec fn envelope(&self) -> Envelope {
        self.envelope
    }

    /// Channel count of the shaped signal.
    pub closed spec fn channels_spec(&self) -> u16 {
        self.channels
    }

    /// Frames per second of the shaped signal.
    pub closed spec fn sample_rate_spec(&self) -> u32 {
        self.sample_rate
    }

    /// Samples consumed so far.
    pub closed spec fn elapsed_spec(&self) -> usize {
        self.elapsed
    }

    /// The frame the next sample belongs to: one frame holds one sample of
    /// every channel.
    pub open spec fn tick(&self) -> int {
        self.elapsed_spec() as int / self.channels_spec() as int
    }

    /// The factor the next sample is due, or `None` if the envelope is over.
    pub open spec fn gain(&self) -> Option<(int, int)> {
        self.envelope().gain_at(self.sample_rate_spec() as int, self.tick())
    }

    /// Channel count of the shaped signal.
    pub fn channels(&self) -> (channels: u16)
        ensures
            channels == self.channels_spec(),
            channels > 0,
    {
        proof {
            use_type_invariant(self);
        }
        self.channels
    }

    /// Frames per second of the shaped signal.
    pub fn sample_rate(&self) -> (rate: u32)
        ensures
            rate == self.sample_rate_spec(),
    {
        self.sample_rate
    }

    /// How many samples have been consumed so far.
    pub fn elapsed(&self) -> (elapsed: usize)
        ensures
            elapsed == self.elapsed_spec(),
    {
        self.elapsed
    }

    /// Consumes one sample of the wrapped signal and gives the factor to
    /// scale it by, or `None` when the envelope has run out.
    pub fn next(&mut self) -> (gain: Option<Gain>)
        requires
            old(self).elapsed_spec() < usize::MAX,
        ensures
            final(self).elapsed_spec() == old(self).elapsed_spec() + 1,
            final(self).envelope() == old(self).envelope(),
            final(self).channels_spec() == old(self).channels_spec(),
            final(self).sample_rate_spec() == old(self).sample_rate_spec(),
            match gain {
                Some(g) => g.den > 0 && old(self).gain() == Some((g.num as int, g.den as int)),
                None => old(self).gain() is None,
            },
    {
        proof {
            use_type_invariant(&*self);
        }
        let env: Envelope = self.envelope;
        let tick: usize = self.elapsed / (self.channels as usize);
        self.elapsed = self.elapsed + 1;

        let rate: u128 = self.sample_rate as u128;
        proof {
            lemma_product_bounds(tick as int, usize::MAX as int, MICROS_PER_SECOND as int, 0x10_0000);
            lemma_product_bounds(rate as int, u32::MAX as int, env.attack as int, u32::MAX as int);
            lemma_product_bounds(rate as int, u32::MAX as int, env.decay as int, u32::MAX as int);
            lemma_product_bounds(rate as int, u32::MAX as int, env.hold as int, u32::MAX as int);
            lemma_product_bounds(rate as int, u32::MAX as int, env.release as int, u32::MAX as int);
        }
        let t: u128 = (tick as u128) * (MICROS_PER_SECOND as u128);
        let a: u128 = rate * (env.attack as u128);
        let d: u128 = rate * (env.decay as u128);
        let h: u128 = rate * (env.hold as u128);
        let r: u128 = rate * (env.release as u128);
        if t < a {
            return Some(Gain { num: t as i128, den: a as i128 });
        }
        let t: u128 = t - a;
        if t < d {
            proof {
                lemma_product_bounds(d as int, 0xffff_ffff_ffff_ffff, UNITY as int, 0x10_0000);
                lemma_product_bounds(t as int, 0xffff_ffff_ffff_ffff, env.sustain as int, u32::MAX as int);
                lemma_product_bounds(t as int, 0xffff_ffff_ffff_ffff, UNITY as int, 0x10_0000);
                assert(t * (UNITY - env.sustain) == t * UNITY - t * env.sustain) by (nonlinear_arith);
            }
            let den: i128 = (d * (UNITY as u128)) as i128;
            let drop: i128 = (t as i128) * (UNITY as i128 - env.sustain as i128);
            return Some(Gain { num: den - drop, den });
        }
        let t: u128 = t - d;
        if t < h {
            return Some(Gain { num: env.sustain as i128, den: UNITY as i128 });
        }
        let t: u128 = t - h;
        if t < r {
            proof {
                lemma_product_bounds(env.sustain as int, u32::MAX as int, r - t, 0xffff_ffff_ffff_ffff);
                lemma_product_bounds(r as int, 0xffff_ffff_ffff_ffff, UNITY as int, 0x10_0000);
            }
            let num: i128 = (env.sustain as i128) * ((r - t) as i128);
            let den: i128 = (r * (UNITY as u128)) as i128;
            return Some(Gain { num, den });
        }
        None
    }
}

} // verus!
