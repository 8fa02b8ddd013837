//! Effects and the frequency-modulation pair: [`Gate`], the slew limiter
//! [`LowPassFilter`], and [`FM`].
use crate::chain::{Effect, Voice};
use crate::config::{Config, ConfigReceiver};
use crate::sample::{magnitude, Sample, SAMPLE_RATE};
use crate::voices::{HasFreq, Waveform};
use vstd::prelude::*;

verus! {

/// Passes a sample whose magnitude is below the cutoff, and silences the
/// others.
pub struct Gate {
    pub cutoff_config: Config<Sample>,
}

/// Passes `input` if its magnitude is below `cutoff`, else silence.
pub open spec fn gated(cutoff: Sample, input: Sample) -> Sample {
    if magnitude(input as int) < cutoff {
        input
    } else {
        0
    }
}

impl Gate {
    pub fn new(cutoff: Sample) -> (r: Self)
        ensures
            r.cutoff_config.held() == cutoff,
            r.cutoff_config.producer() is Some,
            r.cutoff_config.producer().unwrap().cached() == cutoff,
    {
        Gate { cutoff_config: Config::new(cutoff) }
    }
}

impl ConfigReceiver for Gate {
    open spec fn polled(&self, next: Self) -> bool {
        self.cutoff_config.polls_to(next.cutoff_config)
    }

    fn try_update_configs(&mut self) {
        self.cutoff_config.try_update();
    }
}

impl Effect for Gate {
    open spec fn processed(&self, input: Sample) -> Sample {
        gated(self.cutoff_config.held(), input)
    }

    open spec fn moves_to(&self, input: Sample, next: Self) -> bool {
        next == *self
    }

    fn process(&mut self, signal: Sample) -> (r: Sample) {
        let cutoff = *self.cutoff_config.current();
        let size: i64 = if signal < 0 {
            -(signal as i64)
        } else {
            signal as i64
        };
        if size < cutoff as i64 {
            signal
        } else {
            0
        }
    }
}

/// The largest move per tick at `velocity` units per second.
pub open spec fn max_step(velocity: Sample) -> int {
    if velocity <= 0 {
        0
    } else {
        velocity / SAMPLE_RATE
    }
}

/// Where a slew limiter holding `held` moves on `input` when it may move
/// by at most `step`.
pub open spec fn slewed(held: int, input: int, step: int) -> int {
    if input > held + step {
        held + step
    } else if input < held - step {
        held - step
    } else {
        input
    }
}

/// A slew limiter: its output follows the input, moving by at most
/// `velocity / SAMPLE_RATE` per tick. It bounds how fast the output can
/// change; it does not shape the frequency response.
///
/// The velocity, in units per second, is tuned through its own channel.
pub struct LowPassFilter {
    pub velocity: Config<Sample>,
    pub output: Sample,
}

/// Another name for [`LowPassFilter`] that says what it does.
pub type SlewLimiter = LowPassFilter;

impl LowPassFilter {
    pub fn new(velocity: Sample) -> (r: Self)
        ensures
            r.velocity.held() == velocity,
            r.velocity.producer() is Some,
            r.velocity.producer().unwrap().cached() == velocity,
            r.output == 0,
    {
        Self { velocity: Config::new(velocity), output: 0 }
    }

    /// The largest move of the output in one tick.
    pub fn delta(&self) -> (r: Sample)
        ensures
            r == max_step(self.velocity.held()),
    {
        let v = *self.velocity.current();
        if v <= 0 {
            0
        } else {
            v / SAMPLE_RATE
        }
    }
}

impl ConfigReceiver for LowPassFilter {
    open spec fn polled(&self, next: Self) -> bool {
        self.velocity.polls_to(next.velocity) && next.output == self.output
    }

    fn try_update_configs(&mut self) {
        self.velocity.try_update();
    }
}

impl Effect for LowPassFilter {
    open spec fn processed(&self, input: Sample) -> Sample {
        slewed(self.output as int, input as int, max_step(self.velocity.held())) as Sample
    }

    open spec fn moves_to(&self, input: Sample, next: Self) -> bool {
        next == (LowPassFilter { output: self.processed(input), ..*self })
    }

    fn process(&mut self, signal: Sample) -> (r: Sample) {
        let step = self.delta() as i64;
        let held = self.output as i64;
        let target = signal as i64;
        let moved: i64 = if target > held + step {
            held + step
        } else if target < held - step {
            held - step
        } else {
            target
        };
        self.output = moved as i32;
        self.output
    }
}

/// One of the library's effects, so that effects of different kinds can
/// share one [`Chain`](crate::chain::Chain).
pub enum EffectUnit {
    Gate(Gate),
    Slew(LowPassFilter),
}

impl ConfigReceiver for EffectUnit {
    open spec fn polled(&self, next: Self) -> bool {
        match (*self, next) {
            (EffectUnit::Gate(a), EffectUnit::Gate(b)) => a.polled(b),
            (EffectUnit::Slew(a), EffectUnit::Slew(b)) => a.polled(b),
            _ => false,
        }
    }

    fn try_update_configs(&mut self) {
        match self {
            EffectUnit::Gate(e) => e.try_update_configs(),
            EffectUnit::Slew(e) => e.try_update_configs(),
        }
    }
}

impl Effect for EffectUnit {
    open spec fn processed(&self, input: Sample) -> Sample {
        match *self {
            EffectUnit::Gate(e) => e.processed(input),
            EffectUnit::Slew(e) => e.processed(input),
        }
    }

    open spec fn moves_to(&self, input: Sample, next: Self) -> bool {
        match (*self, next) {
            (EffectUnit::Gate(a), EffectUnit::Gate(b)) => a.moves_to(input, b),
            (EffectUnit::Slew(a), EffectUnit::Slew(b)) => a.moves_to(input, b),
            _ => false,
        }
    }

    fn process(&mut self, input: Sample) -> (r: Sample) {
        match self {
            EffectUnit::Gate(e) => e.process(input),
            EffectUnit::Slew(e) => e.process(input),
        }
    }
}

/// Frequency modulation: each tick the carrier is retuned to the
/// modulator's fresh sample, read as a frequency. The sample replaces the
/// carrier's frequency; it is not added to a base frequency.
pub struct FM<M, V> {
    pub voice: V,
    pub modulator: M,
}

impl<M: Waveform, V: Waveform> FM<M, V> {
    pub fn new(modulator: M, voice: V) -> (r: Self)
        ensures
            r.modulator == modulator,
            r.voice == voice,
    {
        Self { voice, modulator }
    }
}

impl<M: Waveform, V: Waveform> HasFreq for FM<M, V> {
    open spec fn tuned(&self, hz: Sample) -> Self {
        FM { modulator: self.modulator.tuned(hz), voice: self.voice }
    }

    /// Sets the modulator's frequency.
    fn freq(&mut self, hz: Sample) {
        self.modulator.freq(hz);
    }
}

impl<M: Waveform, V: Waveform> ConfigReceiver for FM<M, V> {
    open spec fn polled(&self, next: Self) -> bool {
        self.modulator.polled(next.modulator) && self.voice.polled(next.voice)
    }

    fn try_update_configs(&mut self) {
        self.modulator.try_update_configs();
        self.voice.try_update_configs();
    }
}

impl<M: Waveform, V: Waveform> Voice for FM<M, V> {
    open spec fn output(&self) -> Sample {
        self.voice.tuned(self.modulator.output()).output()
    }

    open spec fn advances_to(&self, next: Self) -> bool {
        &&& self.modulator.advances_to(next.modulator)
        &&& self.voice.tuned(self.modulator.output()).advances_to(next.voice)
    }

    fn generate(&mut self) -> (r: Sample) {
        let hz = self.modulator.generate();
        self.voice.freq(hz);
        self.voice.generate()
    }
}

} // verus!
