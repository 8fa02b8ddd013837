//! Voices built from other voices: the two-input blend [`TwoChannel`] and
//! the weighted [`Mixer`].
use crate::chain::Voice;
use crate::config::{
    ComposeConfig, ComposeConfigClient, ConfigReceiver, Reducer, Snapshot, ValidatedConfig,
    ValidatedConfigClient, Validator,
};
use crate::sample::{
    add_fixed, copy_samples, product_wide, saturate, saturate_wide, scaled_product, Sample, HALF, PRODUCT_BOUND, UNIT,
};
use vstd::prelude::*;

verus! {

/// Mix ratios of a [`TwoChannel`], each in `[0, UNIT]`.
#[derive(Clone, Copy, Debug, PartialEq, Eq, Structural)]
pub struct TwoChannelConfig {
    pub a_mix: Sample,
    pub b_mix: Sample,
}

impl View for TwoChannelConfig {
    type V = TwoChannelConfig;

    open spec fn view(&self) -> TwoChannelConfig {
        *self
    }
}

impl Snapshot for TwoChannelConfig {
    fn duplicate(&self) -> (r: Self) {
        *self
    }
}

/// A mix ratio lies in `[0, UNIT]`, that is between 0.0 and 1.0.
pub open spec fn within_range(volume: Sample) -> bool {
    0 <= volume <= UNIT
}

/// Both mix ratios lie in `[0, UNIT]`.
pub open spec fn valid_two_channel(config: TwoChannelConfig) -> bool {
    within_range(config.a_mix) && within_range(config.b_mix)
}

fn validate_two_channel_config(config: &TwoChannelConfig) -> (r: bool)
    ensures
        r == valid_two_channel(*config),
{
    0 <= config.a_mix && config.a_mix <= UNIT && 0 <= config.b_mix && config.b_mix <= UNIT
}

/// The predicate of a [`TwoChannel`]'s channel: both ratios in range.
#[derive(Clone, Copy, Debug, PartialEq, Eq, Structural)]
pub struct MixRange;

impl Validator<TwoChannelConfig> for MixRange {
    open spec fn accepts(&self, candidate: TwoChannelConfig) -> bool {
        valid_two_channel(candidate)
    }

    fn check(&self, candidate: &TwoChannelConfig) -> (r: bool) {
        validate_two_channel_config(candidate)
    }
}

pub type TwoChannelClient = ValidatedConfigClient<TwoChannelConfig, MixRange>;

/// The blend of two voices: `a * a_mix + b * b_mix`.
pub struct TwoChannel<Va, Vb> {
    pub a: Va,
    pub b: Vb,
    pub config: ValidatedConfig<TwoChannelConfig, MixRange>,
}

/// What a [`TwoChannel`] returns for sub-voice samples `a` and `b`.
pub open spec fn blend(a: Sample, b: Sample, mix: TwoChannelConfig) -> Sample {
    saturate(scaled_product(a as int, mix.a_mix as int) + scaled_product(b as int, mix.b_mix as int))
        as Sample
}

impl<Va: Voice, Vb: Voice> TwoChannel<Va, Vb> {
    /// Both ratios start at one half.
    pub fn new(a: Va, b: Vb) -> (r: Self)
        ensures
            r.a == a,
            r.b == b,
            r.config.held() == (TwoChannelConfig { a_mix: HALF, b_mix: HALF }),
            r.config.producer() is Some,
            r.config.producer().unwrap().cached() == (TwoChannelConfig {
                a_mix: HALF,
                b_mix: HALF,
            }),
            r.config.producer().unwrap().validator() == MixRange,
    {
        Self {
            a,
            b,
            config: ValidatedConfig::new_validated(
                TwoChannelConfig { a_mix: HALF, b_mix: HALF },
                MixRange,
            ),
        }
    }
}

impl<Va: Voice, Vb: Voice> ConfigReceiver for TwoChannel<Va, Vb> {
    open spec fn polled(&self, next: Self) -> bool {
        &&& self.config.polls_to(next.config)
        &&& self.a.polled(next.a)
        &&& self.b.polled(next.b)
    }

    fn try_update_configs(&mut self) {
        self.config.try_update();
        self.a.try_update_configs();
        self.b.try_update_configs();
    }
}

impl<Va: Voice, Vb: Voice> Voice for TwoChannel<Va, Vb> {
    open spec fn output(&self) -> Sample {
        blend(self.a.output(), self.b.output(), self.config.held())
    }

    open spec fn advances_to(&self, next: Self) -> bool {
        &&& self.a.advances_to(next.a)
        &&& self.b.advances_to(next.b)
        &&& next.config == self.config
    }

    fn generate(&mut self) -> (r: Sample) {
        let signal_a = self.a.generate();
        let signal_b = self.b.generate();
        let mix = *self.config.current();
        saturate_wide(product_wide(signal_a, mix.a_mix) + product_wide(signal_b, mix.b_mix))
    }
}

/// Per-channel weights of a [`Mixer`].
#[derive(Debug)]
pub struct MixerConfig {
    pub channels: Vec<Sample>,
}

impl View for MixerConfig {
    type V = Seq<Sample>;

    open spec fn view(&self) -> Seq<Sample> {
        self.channels@
    }
}

impl Snapshot for MixerConfig {
    fn duplicate(&self) -> (r: Self) {
        MixerConfig { channels: copy_samples(&self.channels) }
    }
}

/// A relative edit of a [`Mixer`]'s weights.
#[derive(Clone, Copy, Debug, PartialEq, Eq, Structural)]
pub enum MixerAction {
    /// Adds `volume_change` to the weight of `channel`.
    Change { channel: usize, volume_change: Sample },
}

/// The weights after `action`: the named weight moves by the change,
/// saturating; a channel out of range leaves the weights as they are.
pub open spec fn mixer_next(weights: Seq<Sample>, action: MixerAction) -> Seq<Sample> {
    match action {
        MixerAction::Change { channel, volume_change } => {
            if channel < weights.len() {
                weights.update(
                    channel as int,
                    saturate(weights[channel as int] + volume_change) as Sample,
                )
            } else {
                weights
            }
        },
    }
}

fn reduce_mixer_action(config: MixerConfig, action: MixerAction) -> (r: MixerConfig)
    ensures
        r@ == mixer_next(config@, action),
{
    let mut config = config;
    match action {
        MixerAction::Change { channel, volume_change } => {
            if channel < config.channels.len() {
                let moved = add_fixed(config.channels[channel], volume_change);
                config.channels.set(channel, moved);
            }
        },
    }
    config
}

/// The reducer of a [`Mixer`]'s channel.
#[derive(Clone, Copy, Debug, PartialEq, Eq, Structural)]
pub struct MixerReducer;

impl Reducer<MixerConfig, MixerAction> for MixerReducer {
    open spec fn next(&self, current: Seq<Sample>, action: MixerAction) -> Seq<Sample> {
        mixer_next(current, action)
    }

    fn reduce(&self, current: MixerConfig, action: MixerAction) -> (r: MixerConfig) {
        reduce_mixer_action(current, action)
    }
}

pub type MixerClient = ComposeConfigClient<MixerConfig, MixerAction, MixerReducer>;

/// The weight of channel `i`; a channel without a weight counts as silent.
pub open spec fn weight_at(weights: Seq<Sample>, i: int) -> Sample {
    if 0 <= i < weights.len() {
        weights[i]
    } else {
        0
    }
}

/// The sum over the first `n` voices of each one's output times its
/// weight, in fixed point.
pub open spec fn mix_sum<V: Voice>(voices: Seq<V>, weights: Seq<Sample>, n: int) -> int
    decreases n,
{
    if n <= 0 {
        0
    } else {
        mix_sum(voices, weights, n - 1) + scaled_product(
            voices[n - 1].output() as int,
            weight_at(weights, n - 1) as int,
        )
    }
}

/// A weighted sum of voices, one weight per voice.
pub struct Mixer<V> {
    pub config: ComposeConfig<MixerConfig, MixerAction, MixerReducer>,
    pub voices: Vec<V>,
}

impl<V: Voice> Mixer<V> {
    /// Every weight starts at one half.
    pub fn new(voices: Vec<V>) -> (r: Self)
        ensures
            r.voices@ == voices@,
            r.config.held()@ == Seq::new(voices@.len(), |i: int| HALF),
            r.config.producer() is Some,
            r.config.producer().unwrap().cached() == Seq::new(voices@.len(), |i: int| HALF),
            r.config.producer().unwrap().reducer() == MixerReducer,
    {
        let mut channels: Vec<Sample> = Vec::new();
        let mut i: usize = 0;
        while i < voices.len()
            invariant
                i <= voices@.len(),
                channels@ == Seq::new(i as nat, |j: int| HALF),
            decreases voices.len() - i,
        {
            channels.push(HALF);
            i = i + 1;
            assert(channels@ == Seq::new(i as nat, |j: int| HALF));
        }
        Self { config: ComposeConfig::new(MixerConfig { channels }, MixerReducer), voices }
    }
}

impl<V: Voice> ConfigReceiver for Mixer<V> {
    open spec fn polled(&self, next: Self) -> bool {
        &&& self.config.polls_to(next.config)
        &&& next.voices@.len() == self.voices@.len()
        &&& forall|i: int|
            0 <= i < self.voices@.len() ==> #[trigger] self.voices@[i].polled(next.voices@[i])
    }

    fn try_update_configs(&mut self) {
        self.config.try_update();
        let ghost start = self.voices@;
        let mut i: usize = 0;
        while i < self.voices.len()
            invariant
                start == old(self).voices@,
                old(self).config.polls_to(self.config),
                0 <= i <= start.len(),
                self.voices@.len() == start.len(),
                forall|j: int| i <= j < start.len() ==> self.voices@[j] == start[j],
                forall|j: int| 0 <= j < i ==> #[trigger] start[j].polled(self.voices@[j]),
            decreases start.len() - i,
        {
            self.voices[i].try_update_configs();
            i = i + 1;
        }
    }
}

impl<V: Voice> Voice for Mixer<V> {
    open spec fn output(&self) -> Sample {
        saturate(mix_sum(self.voices@, self.config.held()@, self.voices@.len() as int)) as Sample
    }

    open spec fn advances_to(&self, next: Self) -> bool {
        &&& next.config == self.config
        &&& next.voices@.len() == self.voices@.len()
        &&& forall|i: int|
            0 <= i < self.voices@.len() ==> #[trigger] self.voices@[i].advances_to(
                next.voices@[i],
            )
    }

    fn generate(&mut self) -> (r: Sample) {
        let ghost start = self.voices@;
        let channels = &self.config.current().channels;
        let mut acc: i128 = 0;
        let mut i: usize = 0;
        while i < self.voices.len()
            invariant
                start == old(self).voices@,
                self.config == old(self).config,
                channels@ == old(self).config.held()@,
                0 <= i <= start.len(),
                self.voices@.len() == start.len(),
                acc == mix_sum(start, channels@, i as int),
                -(i as int) * PRODUCT_BOUND <= acc <= (i as int) * PRODUCT_BOUND,
                forall|j: int| i <= j < start.len() ==> self.voices@[j] == start[j],
                forall|j: int| 0 <= j < i ==> #[trigger] start[j].advances_to(self.voices@[j]),
            decreases start.len() - i,
        {
            let signal = self.voices[i].generate();
            let weight = if i < channels.len() {
                channels[i]
            } else {
                0
            };
            acc = acc + product_wide(signal, weight);
            i = i + 1;
        }
        saturate_wide(acc)
    }
}

/// The exact sum over the first `n` voices of output times weight, with
/// no rounding; in units of `1 / (UNIT * UNIT)`.
pub open spec fn exact_sum<V: Voice>(voices: Seq<V>, weights: Seq<Sample>, n: int) -> int
    decreases n,
{
    if n <= 0 {
        0
    } else {
        exact_sum(voices, weights, n - 1) + (voices[n - 1].output() as int) * (weight_at(
            weights,
            n - 1,
        ) as int)
    }
}

/// Rounding each term down loses less than one unit of the last place per
/// term: the fixed-point mix of `n` voices lies less than `n / UNIT` below
/// the exact weighted sum.
pub proof fn lemma_mix_sum_rounding<V: Voice>(voices: Seq<V>, weights: Seq<Sample>, n: int)
    requires
        0 <= n <= voices.len(),
    ensures
        mix_sum(voices, weights, n) * UNIT <= exact_sum(voices, weights, n),
        exact_sum(voices, weights, n) <= mix_sum(voices, weights, n) * UNIT + n * (UNIT - 1),
    decreases n,
{
    if n > 0 {
        lemma_mix_sum_rounding(voices, weights, n - 1);
        let p = (voices[n - 1].output() as int) * (weight_at(weights, n - 1) as int);
        vstd::arithmetic::div_mod::lemma_fundamental_div_mod(p, 65536);
        vstd::arithmetic::div_mod::lemma_mod_division_less_than_divisor(p, 65536);
        assert(scaled_product(voices[n - 1].output() as int, weight_at(weights, n - 1) as int)
            == p / 65536);
    }
}

/// Mixer linearity: while the mix stays inside the range of `Sample`, a
/// mixer's output `r` over voices whose outputs this tick are `s_i`, with
/// weights `w_i`, satisfies
/// `r * UNIT <= sum(s_i * w_i) <= r * UNIT + n * (UNIT - 1)`:
/// the weighted sum, rounded down term by term.
pub proof fn mixer_linearity<V: Voice>(mixer: Mixer<V>)
    requires
        i32::MIN <= mix_sum(mixer.voices@, mixer.config.held()@, mixer.voices@.len() as int)
            <= i32::MAX,
    ensures
        ({
            let n = mixer.voices@.len() as int;
            let exact = exact_sum(mixer.voices@, mixer.config.held()@, n);
            &&& mixer.output() * UNIT <= exact
            &&& exact <= mixer.output() * UNIT + n * (UNIT - 1)
        }),
{
    lemma_mix_sum_rounding(mixer.voices@, mixer.config.held()@, mixer.voices@.len() as int);
}

/// Applying the same relative edit twice moves the edited weight of the
/// producer's cache by twice the change, when no step saturates, and
/// leaves the other weights alone.
pub proof fn reducer_replay(weights: Seq<Sample>, channel: usize, volume_change: Sample)
    requires
        channel < weights.len(),
        i32::MIN <= weights[channel as int] + 2 * volume_change <= i32::MAX,
    ensures
        ({
            let action = MixerAction::Change { channel, volume_change };
            let twice = MixerReducer.next(MixerReducer.next(weights, action), action);
            &&& twice.len() == weights.len()
            &&& twice[channel as int] == weights[channel as int] + 2 * volume_change
            &&& forall|i: int| 0 <= i < weights.len() && i != channel ==> twice[i] == weights[i]
        }),
{
}

} // verus!
