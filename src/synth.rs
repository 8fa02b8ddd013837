//! The engine: installs the root voice in the audio callback once, and
//! fills each output buffer.
use crate::chain::Voice;
use crate::sample::Sample;
use vstd::prelude::*;

verus! {

/// Whether the engine's audio callback has been installed.
pub struct Synth {
    started: bool,
}

/// `installed` is what `play` returns from `before`, leaving `after`:
/// the voice is handed over for installing only on the first call.
pub open spec fn plays(before: bool, after: bool, installed: bool) -> bool {
    (installed == !before) && after
}

impl Synth {
    /// Whether a voice has been installed.
    pub closed spec fn is_started(&self) -> bool {
        self.started
    }

    pub fn new() -> (r: Self)
        ensures
            !r.is_started(),
    {
        Synth { started: false }
    }

    /// Starts the engine with `voice`. The first call returns the voice,
    /// for the caller to install in the audio callback; every later call is
    /// a no-op and returns `None`.
    pub fn play<V>(&mut self, voice: V) -> (r: Option<V>)
        ensures
            plays(old(self).is_started(), final(self).is_started(), r is Some),
            r is Some ==> r == Some(voice),
    {
        if self.started {
            None
        } else {
            self.started = true;
            Some(voice)
        }
    }

    /// Whether a voice has been installed.
    pub fn started(&self) -> (r: bool)
        ensures
            r == self.is_started(),
    {
        self.started
    }
}

/// Starting is idempotent: of two calls of `play` on one engine, at most
/// one hands out a voice, and on a new engine exactly the first does.
pub proof fn start_once(s0: bool, s1: bool, s2: bool, first: bool, second: bool)
    requires
        plays(s0, s1, first),
        plays(s1, s2, second),
    ensures
        !(first && second),
        !s0 ==> first && !second,
{
}

/// `outputs` are the samples of `states.len() - 1` ticks, `states` the
/// voice's state before each tick and after the last.
pub open spec fn ticks<V: Voice>(states: Seq<V>, outputs: Seq<Sample>) -> bool {
    &&& states.len() == outputs.len() + 1
    &&& forall|i: int|
        0 <= i < outputs.len() ==> outputs[i] == (#[trigger] states[i]).output()
            && states[i].advances_to(states[i + 1])
}

/// Writes one generated sample into each slot of `data`, in order.
pub fn put_samples<V: Voice>(voice: &mut V, data: &mut Vec<Sample>)
    ensures
        final(data)@.len() == old(data)@.len(),
        exists|states: Seq<V>|
            #[trigger] ticks(states, final(data)@) && states[0] == *old(voice) && states.last()
                == *final(voice),
{
    let ghost mut states: Seq<V> = seq![*voice];
    let mut i: usize = 0;
    while i < data.len()
        invariant
            data@.len() == old(data)@.len(),
            0 <= i <= data@.len(),
            states.len() == i + 1,
            states[0] == *old(voice),
            states.last() == *voice,
            forall|j: int|
                0 <= j < i ==> data@[j] == (#[trigger] states[j]).output() && states[j].advances_to(
                    states[j + 1],
                ),
        decreases data@.len() - i,
    {
        let ghost before = *voice;
        let s = voice.generate();
        data.set(i, s);
        proof {
            states = states.push(*voice);
        }
        i = i + 1;
    }
    assert(ticks(states, data@.take(i as int)));
    assert(data@.take(i as int) == data@);
}

/// The audio callback's work for one buffer: poll every parameter channel
/// of the voice once, then fill the buffer.
pub fn render<V: Voice>(voice: &mut V, data: &mut Vec<Sample>)
    ensures
        final(data)@.len() == old(data)@.len(),
        exists|states: Seq<V>|
            #[trigger] ticks(states, final(data)@) && old(voice).polled(states[0]) && states.last()
                == *final(voice),
{
    voice.try_update_configs();
    put_samples(voice, data);
}

} // verus!
