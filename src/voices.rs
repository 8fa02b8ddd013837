//! Sound sources: the retunable [`Sine`] oscillator, a voice followed by
//! an effect ([`Chained`]), and the additive stack of partials
//! ([`Additive`]).
use crate::chain::{Effect, Voice};
use crate::combinators::{mix_sum, Mixer};
use crate::config::{ComposeConfig, ComposeConfigClient, Config, ConfigReceiver, Reducer, Snapshot};
use crate::sample::{
    copy_samples, magnitude, mul_fixed, saturate, scaled_product, Sample, SAMPLE_RATE,
};
use vstd::prelude::*;

verus! {

/// A unit whose frequency can be set directly, once per tick if need be.
pub trait HasFreq: Sized {
    /// This unit retuned to `hz`.
    spec fn tuned(&self, hz: Sample) -> Self;

    fn freq(&mut self, hz: Sample)
        ensures
            *final(self) == old(self).tuned(hz),
    ;
}

/// A voice whose frequency can be set.
pub trait Waveform: HasFreq + Voice {

}

impl<T: HasFreq + Voice> Waveform for T {

}

/// Phase values per full cycle of an oscillator.
pub const CYCLE: u64 = 0x1_0000_0000;

/// Phase values per half cycle.
pub const HALF_CYCLE: u32 = 0x8000_0000;

/// Below this magnitude the oscillator is close enough to a zero crossing
/// for a new frequency from its channel to take effect without a click.
pub const QUIET: i32 = 4096;

/// How far the phase moves in one tick at `hz` (negative frequencies run
/// the phase backwards).
pub open spec fn phase_step(hz: Sample) -> int {
    (hz as int) * 65536 / (SAMPLE_RATE as int)
}

/// The phase one tick after `phase` at `hz`, wrapping around the cycle.
pub open spec fn advance(phase: u32, hz: Sample) -> u32 {
    ((phase as int + phase_step(hz)) % (CYCLE as int)) as u32
}

/// The oscillator's waveform: in each half cycle a parabola from zero up to
/// `UNIT` and back, positive in the first half and negative in the second.
pub open spec fn wave(phase: u32) -> int {
    let h = (phase % HALF_CYCLE) as int;
    let y = h * (HALF_CYCLE - h) / 0x1000_0000_0000int;
    if phase < HALF_CYCLE {
        y
    } else {
        -y
    }
}

/// The value of the waveform at `phase`.
pub fn wave_at(phase: u32) -> (r: Sample)
    ensures
        r == wave(phase),
{
    let h: u64 = (phase % HALF_CYCLE) as u64;
    assert(h * (0x8000_0000 - h) <= 0x1000_0000_0000_0000) by (nonlinear_arith)
        requires
            0 <= h < 0x8000_0000,
    {
        assert((0x8000_0000 - 2 * h) * (0x8000_0000 - 2 * h) >= 0);
    }
    assert(h * (0x8000_0000 - h) >= 0) by (nonlinear_arith)
        requires
            0 <= h < 0x8000_0000,
    {
    }
    let y: u64 = h * (0x8000_0000 - h) / 0x1000_0000_0000;
    if phase < HALF_CYCLE {
        y as i32
    } else {
        -(y as i32)
    }
}

/// The phase one tick after `phase` at `hz`.
pub fn next_phase(phase: u32, hz: Sample) -> (r: u32)
    ensures
        r == advance(phase, hz),
{
    let scaled: i64 = (hz as i64) * 65536;
    let step: i64 = match scaled.checked_div_euclid(SAMPLE_RATE as i64) {
        Some(q) => q,
        None => 0,
    };
    assert(-0x1_0000_0000 <= step <= 0x1_0000_0000);
    let moved: i64 = phase as i64 + step;
    match moved.checked_rem_euclid(CYCLE as i64) {
        Some(p) => p as u32,
        None => 0,
    }
}

/// Tunable state of a [`Sine`]: its target frequency.
#[derive(Clone, Copy, Debug, PartialEq, Eq, Structural)]
pub struct SineConfig {
    pub hz: Sample,
}

impl View for SineConfig {
    type V = SineConfig;

    open spec fn view(&self) -> SineConfig {
        *self
    }
}

impl Snapshot for SineConfig {
    fn duplicate(&self) -> (r: Self) {
        *self
    }
}

/// A sine-like oscillator over a 32-bit phase accumulator.
///
/// A frequency set with [`HasFreq::freq`] takes effect at once. One sent
/// through the oscillator's channel takes effect at the first tick that
/// starts close to a zero crossing.
pub struct Sine {
    pub config: Config<SineConfig>,
    pub hz: Sample,
    pub phase: u32,
}

impl Sine {
    /// The frequency the next tick runs at.
    pub open spec fn settled_hz(&self) -> Sample {
        let target = self.config.held().hz;
        if target != self.hz && magnitude(wave(self.phase)) < QUIET {
            target
        } else {
            self.hz
        }
    }

    pub fn new(hz: Sample) -> (r: Self)
        ensures
            r.config.held() == (SineConfig { hz }),
            r.config.producer() is Some,
            r.config.producer().unwrap().cached() == (SineConfig { hz }),
            r.hz == hz,
            r.phase == 0,
    {
        Sine { config: Config::new(SineConfig { hz }), hz, phase: 0 }
    }

    /// Takes up the frequency from the channel if the oscillator is quiet.
    fn try_update_hz(&mut self)
        ensures
            *final(self) == (Sine { hz: old(self).settled_hz(), ..*old(self) }),
    {
        let new_hz = self.config.current().hz;
        if new_hz != self.hz {
            let signal = self.get_output();
            if -QUIET < signal && signal < QUIET {
                self.hz = new_hz;
            }
        }
    }

    /// The waveform at the current phase.
    fn get_output(&self) -> (r: Sample)
        ensures
            r == wave(self.phase),
    {
        wave_at(self.phase)
    }
}

impl ConfigReceiver for Sine {
    open spec fn polled(&self, next: Self) -> bool {
        self.config.polls_to(next.config) && next.hz == self.hz && next.phase == self.phase
    }

    fn try_update_configs(&mut self) {
        self.config.try_update();
    }
}

impl Voice for Sine {
    open spec fn output(&self) -> Sample {
        wave(advance(self.phase, self.settled_hz())) as Sample
    }

    open spec fn advances_to(&self, next: Self) -> bool {
        next == (Sine { hz: self.settled_hz(), phase: advance(self.phase, self.settled_hz()), ..*self })
    }

    fn generate(&mut self) -> (r: Sample) {
        self.try_update_hz();
        self.phase = next_phase(self.phase, self.hz);
        self.get_output()
    }
}

impl HasFreq for Sine {
    open spec fn tuned(&self, hz: Sample) -> Self {
        Sine { config: self.config.with_held(SineConfig { hz }), hz, phase: self.phase }
    }

    fn freq(&mut self, hz: Sample) {
        self.hz = hz;
        self.config.accept(SineConfig { hz });
    }
}

/// A voice whose every sample passes through an effect.
pub struct Chained<V, E> {
    pub voice: V,
    pub effect: E,
}

impl<V: Voice, E: Effect> Chained<V, E> {
    pub fn new(voice: V, effect: E) -> (r: Self)
        ensures
            r.voice == voice,
            r.effect == effect,
    {
        Self { voice, effect }
    }
}

impl<V: Voice, E: Effect> Voice for Chained<V, E> {
    open spec fn output(&self) -> Sample {
        self.effect.processed(self.voice.output())
    }

    open spec fn advances_to(&self, next: Self) -> bool {
        &&& self.voice.advances_to(next.voice)
        &&& self.effect.moves_to(self.voice.output(), next.effect)
    }

    fn generate(&mut self) -> (r: Sample) {
        let s = self.voice.generate();
        self.effect.process(s)
    }
}

impl<V: Voice, E: Effect> ConfigReceiver for Chained<V, E> {
    open spec fn polled(&self, next: Self) -> bool {
        self.voice.polled(next.voice) && self.effect.polled(next.effect)
    }

    fn try_update_configs(&mut self) {
        self.voice.try_update_configs();
        self.effect.try_update_configs();
    }
}

/// Tunable state of an [`Additive`]: the multiplier of each overtone.
#[derive(Debug)]
pub struct AdditiveConfig {
    pub overtones: Vec<Sample>,
}

impl View for AdditiveConfig {
    type V = Seq<Sample>;

    open spec fn view(&self) -> Seq<Sample> {
        self.overtones@
    }
}

impl Snapshot for AdditiveConfig {
    fn duplicate(&self) -> (r: Self) {
        AdditiveConfig { overtones: copy_samples(&self.overtones) }
    }
}

/// An edit of an [`Additive`]'s overtones.
#[derive(Clone, Copy, Debug, PartialEq, Eq, Structural)]
pub enum AdditiveAction {
    /// Sets the multiplier of overtone `index`.
    SetOvertone { index: usize, multiplier: Sample },
}

/// The overtones after `action`; an index out of range changes nothing.
pub open spec fn additive_next(overtones: Seq<Sample>, action: AdditiveAction) -> Seq<Sample> {
    match action {
        AdditiveAction::SetOvertone { index, multiplier } => {
            if index < overtones.len() {
                overtones.update(index as int, multiplier)
            } else {
                overtones
            }
        },
    }
}

/// The reducer of an [`Additive`]'s channel.
#[derive(Clone, Copy, Debug, PartialEq, Eq, Structural)]
pub struct AdditiveReducer;

impl Reducer<AdditiveConfig, AdditiveAction> for AdditiveReducer {
    open spec fn next(&self, current: Seq<Sample>, action: AdditiveAction) -> Seq<Sample> {
        additive_next(current, action)
    }

    fn reduce(&self, current: AdditiveConfig, action: AdditiveAction) -> (r: AdditiveConfig) {
        let mut config = current;
        match action {
            AdditiveAction::SetOvertone { index, multiplier } => {
                if index < config.overtones.len() {
                    config.overtones.set(index, multiplier);
                }
            },
        }
        config
    }
}

pub type AdditiveClient = ComposeConfigClient<AdditiveConfig, AdditiveAction, AdditiveReducer>;

/// The frequency of partial `i`: the fundamental for the first, the
/// fundamental times overtone `i - 1` for the others.
pub open spec fn partial_hz(fundamental: Sample, overtones: Seq<Sample>, i: int) -> Sample {
    if i == 0 {
        fundamental
    } else {
        saturate(scaled_product(fundamental as int, overtones[i - 1] as int)) as Sample
    }
}

/// Whether partial `i` has a frequency to take: the first always, the
/// others when there is an overtone for them.
pub open spec fn has_partial(overtones: Seq<Sample>, i: int) -> bool {
    i == 0 || i - 1 < overtones.len()
}

/// The oscillators after retuning each one that has a partial frequency.
pub open spec fn retuned(voices: Seq<Sine>, fundamental: Sample, overtones: Seq<Sample>) -> Seq<
    Sine,
> {
    voices.map(
        |i: int, v: Sine|
            if has_partial(overtones, i) {
                v.tuned(partial_hz(fundamental, overtones, i))
            } else {
                v
            },
    )
}

/// A stack of oscillators: one at the fundamental and one per overtone, at
/// the fundamental times the overtone's multiplier, mixed by a [`Mixer`].
pub struct Additive {
    pub config: ComposeConfig<AdditiveConfig, AdditiveAction, AdditiveReducer>,
    pub mixer: Mixer<Sine>,
    pub fundamental: Sample,
}

impl Additive {
    pub fn new(fundamental: Sample, overtones: Vec<Sample>) -> (r: Self)
        ensures
            r.fundamental == fundamental,
            r.config.held()@ == overtones@,
            r.config.producer() is Some,
            r.config.producer().unwrap().cached() == overtones@,
            r.mixer.voices@.len() == overtones@.len() + 1,
            forall|i: int|
                0 <= i < r.mixer.voices@.len() ==> (#[trigger] r.mixer.voices@[i]).hz
                    == partial_hz(fundamental, overtones@, i),
    {
        let mut voices: Vec<Sine> = Vec::new();
        voices.push(Sine::new(fundamental));
        let mut i: usize = 0;
        while i < overtones.len()
            invariant
                i <= overtones@.len(),
                voices@.len() == i + 1,
                forall|j: int|
                    0 <= j < voices@.len() ==> (#[trigger] voices@[j]).hz == partial_hz(
                        fundamental,
                        overtones@,
                        j,
                    ),
            decreases overtones.len() - i,
        {
            voices.push(Sine::new(mul_fixed(fundamental, overtones[i])));
            i = i + 1;
        }
        Additive {
            config: ComposeConfig::new(AdditiveConfig { overtones }, AdditiveReducer),
            mixer: Mixer::new(voices),
            fundamental,
        }
    }

    /// Sets each oscillator to its partial's frequency.
    pub fn retune(&mut self)
        ensures
            final(self).mixer.voices@ == retuned(
                old(self).mixer.voices@,
                old(self).fundamental,
                old(self).config.held()@,
            ),
            final(self).mixer.config == old(self).mixer.config,
            final(self).config == old(self).config,
            final(self).fundamental == old(self).fundamental,
    {
        let ghost start = self.mixer.voices@;
        let overtones = &self.config.current().overtones;
        let fundamental = self.fundamental;
        let mut i: usize = 0;
        while i < self.mixer.voices.len()
            invariant
                start == old(self).mixer.voices@,
                overtones@ == old(self).config.held()@,
                fundamental == old(self).fundamental,
                self.mixer.config == old(self).mixer.config,
                self.config == old(self).config,
                self.fundamental == old(self).fundamental,
                0 <= i <= start.len(),
                self.mixer.voices@.len() == start.len(),
                forall|j: int| i <= j < start.len() ==> self.mixer.voices@[j] == start[j],
                forall|j: int|
                    0 <= j < i ==> self.mixer.voices@[j] == #[trigger] retuned(
                        start,
                        fundamental,
                        overtones@,
                    )[j],
            decreases start.len() - i,
        {
            if i == 0 {
                self.mixer.voices[i].freq(fundamental);
            } else if i - 1 < overtones.len() {
                let hz = mul_fixed(fundamental, overtones[i - 1]);
                self.mixer.voices[i].freq(hz);
            }
            i = i + 1;
        }
        assert(self.mixer.voices@ == retuned(start, fundamental, overtones@));
    }
}

impl ConfigReceiver for Additive {
    open spec fn polled(&self, next: Self) -> bool {
        &&& self.config.polls_to(next.config)
        &&& self.mixer.polled(next.mixer)
        &&& next.fundamental == self.fundamental
    }

    fn try_update_configs(&mut self) {
        self.config.try_update();
        self.mixer.try_update_configs();
    }
}

impl Voice for Additive {
    open spec fn output(&self) -> Sample {
        let voices = retuned(self.mixer.voices@, self.fundamental, self.config.held()@);
        saturate(mix_sum(voices, self.mixer.config.held()@, voices.len() as int)) as Sample
    }

    open spec fn advances_to(&self, next: Self) -> bool {
        let voices = retuned(self.mixer.voices@, self.fundamental, self.config.held()@);
        &&& next.config == self.config
        &&& next.fundamental == self.fundamental
        &&& next.mixer.config == self.mixer.config
        &&& next.mixer.voices@.len() == voices.len()
        &&& forall|i: int|
            0 <= i < voices.len() ==> #[trigger] voices[i].advances_to(next.mixer.voices@[i])
    }

    /// Retunes every partial, then mixes them.
    fn generate(&mut self) -> (r: Sample) {
        self.retune();
        self.mixer.generate()
    }
}

impl HasFreq for Additive {
    open spec fn tuned(&self, hz: Sample) -> Self {
        Additive { fundamental: hz, ..*self }
    }

    /// Sets the fundamental.
    fn freq(&mut self, hz: Sample) {
        self.fundamental = hz;
    }
}

} // verus!
