//! The note controller: a voice that sounds only while a note is held.
use crate::chain::Voice;
use crate::config::{ComposeConfig, ComposeConfigClient, ConfigReceiver, Reducer, Snapshot};
use crate::sample::{add_fixed, saturate, Sample};
use crate::voices::Waveform;
use vstd::prelude::*;

verus! {

/// An edit of a [`KeyboardController`]'s state.
#[derive(Clone, Copy, Debug, PartialEq, Eq, Structural)]
pub enum KBConfigAction {
    /// Starts playing the note at this frequency.
    Play(Sample),
    /// Stops the note.
    Stop,
    /// Sets the base frequency added to every note.
    ChangeBase(Sample),
}

/// Tunable state of a [`KeyboardController`].
#[derive(Clone, Copy, Debug, PartialEq, Eq, Structural)]
pub struct KBCConfig {
    pub base_hz: Sample,
    pub playing_note: Option<Sample>,
}

impl View for KBCConfig {
    type V = KBCConfig;

    open spec fn view(&self) -> KBCConfig {
        *self
    }
}

impl Snapshot for KBCConfig {
    fn duplicate(&self) -> (r: Self) {
        *self
    }
}

impl Default for KBCConfig {
    /// No base frequency and no note.
    fn default() -> (r: Self)
        ensures
            r == (KBCConfig { base_hz: 0, playing_note: None }),
    {
        Self { base_hz: 0, playing_note: None }
    }
}

/// The controller's state after `action`.
pub open spec fn keyboard_next(config: KBCConfig, action: KBConfigAction) -> KBCConfig {
    match action {
        KBConfigAction::Play(hz) => KBCConfig { playing_note: Some(hz), ..config },
        KBConfigAction::Stop => KBCConfig { playing_note: None, ..config },
        KBConfigAction::ChangeBase(hz) => KBCConfig { base_hz: hz, ..config },
    }
}

fn reduce_kb_config_action(config: KBCConfig, action: KBConfigAction) -> (r: KBCConfig)
    ensures
        r == keyboard_next(config, action),
{
    let mut config = config;
    match action {
        KBConfigAction::Play(hz) => config.playing_note = Some(hz),
        KBConfigAction::Stop => config.playing_note = None,
        KBConfigAction::ChangeBase(hz) => config.base_hz = hz,
    }
    config
}

/// The reducer of a [`KeyboardController`]'s channel.
#[derive(Clone, Copy, Debug, PartialEq, Eq, Structural)]
pub struct KeyboardReducer;

impl Reducer<KBCConfig, KBConfigAction> for KeyboardReducer {
    open spec fn next(&self, current: KBCConfig, action: KBConfigAction) -> KBCConfig {
        keyboard_next(current, action)
    }

    fn reduce(&self, current: KBCConfig, action: KBConfigAction) -> (r: KBCConfig) {
        reduce_kb_config_action(current, action)
    }
}

pub type KeyboardControllerClient = ComposeConfigClient<KBCConfig, KBConfigAction, KeyboardReducer>;

/// The frequency the carrier plays for `note` over `base_hz`, saturated.
pub open spec fn note_hz(note: Sample, base_hz: Sample) -> Sample {
    saturate(note + base_hz) as Sample
}

/// Wraps a carrier: silence while no note is held; while one is, the
/// carrier retuned each tick to the note plus the base frequency.
pub struct KeyboardController<V> {
    pub voice: V,
    pub config: ComposeConfig<KBCConfig, KBConfigAction, KeyboardReducer>,
}

impl<V: Waveform> KeyboardController<V> {
    pub fn new(voice: V) -> (r: Self)
        ensures
            r.voice == voice,
            r.config.held() == (KBCConfig { base_hz: 0, playing_note: None }),
            r.config.producer() is Some,
            r.config.producer().unwrap().cached() == (KBCConfig {
                base_hz: 0,
                playing_note: None,
            }),
    {
        Self { voice, config: ComposeConfig::new(KBCConfig::default(), KeyboardReducer) }
    }
}

impl<V: Waveform> ConfigReceiver for KeyboardController<V> {
    open spec fn polled(&self, next: Self) -> bool {
        self.config.polls_to(next.config) && self.voice.polled(next.voice)
    }

    fn try_update_configs(&mut self) {
        self.config.try_update();
        self.voice.try_update_configs();
    }
}

impl<V: Waveform> Voice for KeyboardController<V> {
    open spec fn output(&self) -> Sample {
        let c = self.config.held();
        match c.playing_note {
            Some(hz) => self.voice.tuned(note_hz(hz, c.base_hz)).output(),
            None => 0,
        }
    }

    open spec fn advances_to(&self, next: Self) -> bool {
        let c = self.config.held();
        &&& next.config == self.config
        &&& match c.playing_note {
            Some(hz) => self.voice.tuned(note_hz(hz, c.base_hz)).advances_to(next.voice),
            None => next.voice == self.voice,
        }
    }

    fn generate(&mut self) -> (r: Sample) {
        let c = *self.config.current();
        match c.playing_note {
            Some(hz) => {
                self.voice.freq(add_fixed(hz, c.base_hz));
                self.voice.generate()
            },
            None => 0,
        }
    }
}

} // verus!
