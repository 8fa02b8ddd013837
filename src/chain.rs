//! The two capabilities every sound unit has, and their closure under
//! composition: a [`Voice`] produces one sample per tick, an [`Effect`]
//! turns one sample into another per tick, and a [`Chain`] of effects is
//! itself an effect.
use crate::config::ConfigReceiver;
use crate::sample::Sample;
use vstd::prelude::*;

verus! {

/// A stateful unit that turns one sample into one sample per tick.
pub trait Effect: ConfigReceiver + Sized {
    /// What `process(input)` returns from this state.
    spec fn processed(&self, input: Sample) -> Sample;

    /// `next` is a state this unit may be in after processing `input`.
    spec fn moves_to(&self, input: Sample, next: Self) -> bool;

    fn process(&mut self, input: Sample) -> (r: Sample)
        ensures
            r == old(self).processed(input),
            old(self).moves_to(input, *final(self)),
    ;
}

/// A stateful unit that produces one sample per tick.
pub trait Voice: ConfigReceiver + Sized {
    /// What `generate()` returns from this state.
    spec fn output(&self) -> Sample;

    /// `next` is a state this unit may be in after one `generate()`.
    spec fn advances_to(&self, next: Self) -> bool;

    fn generate(&mut self) -> (r: Sample)
        ensures
            r == old(self).output(),
            old(self).advances_to(*final(self)),
    ;
}

/// What a list of effects returns for `input`: each consumes the output
/// of the one before it.
pub open spec fn run<E: Effect>(effects: Seq<E>, input: Sample) -> Sample
    decreases effects.len(),
{
    if effects.len() == 0 {
        input
    } else {
        effects.last().processed(run(effects.drop_last(), input))
    }
}

/// An ordered list of effects, applied in list order.
pub struct Chain<E> {
    pub chain: Vec<E>,
}

impl<E: Effect> Chain<E> {
    pub fn new() -> (r: Self)
        ensures
            r.chain@ == Seq::<E>::empty(),
    {
        Chain { chain: Vec::new() }
    }

    /// Appends `effect` at the end of the chain.
    pub fn add(&mut self, effect: E)
        ensures
            final(self).chain@ == old(self).chain@.push(effect),
    {
        self.chain.push(effect);
    }
}

impl<E: Effect> ConfigReceiver for Chain<E> {
    open spec fn polled(&self, next: Self) -> bool {
        &&& next.chain@.len() == self.chain@.len()
        &&& forall|i: int|
            0 <= i < self.chain@.len() ==> #[trigger] self.chain@[i].polled(next.chain@[i])
    }

    fn try_update_configs(&mut self) {
        let ghost start = self.chain@;
        let mut i: usize = 0;
        while i < self.chain.len()
            invariant
                start == old(self).chain@,
                0 <= i <= start.len(),
                self.chain@.len() == start.len(),
                forall|j: int| i <= j < start.len() ==> self.chain@[j] == start[j],
                forall|j: int| 0 <= j < i ==> #[trigger] start[j].polled(self.chain@[j]),
            decreases start.len() - i,
        {
            self.chain[i].try_update_configs();
            i = i + 1;
        }
    }
}

proof fn lemma_run_take<E: Effect>(effects: Seq<E>, i: int, input: Sample)
    requires
        0 <= i < effects.len(),
    ensures
        run(effects.take(i + 1), input) == effects[i].processed(run(effects.take(i), input)),
{
    assert(effects.take(i + 1).drop_last() == effects.take(i));
}

impl<E: Effect> Effect for Chain<E> {
    open spec fn processed(&self, input: Sample) -> Sample {
        run(self.chain@, input)
    }

    open spec fn moves_to(&self, input: Sample, next: Self) -> bool {
        &&& next.chain@.len() == self.chain@.len()
        &&& forall|i: int|
            0 <= i < self.chain@.len() ==> #[trigger] self.chain@[i].moves_to(
                run(self.chain@.take(i), input),
                next.chain@[i],
            )
    }

    fn process(&mut self, input: Sample) -> (r: Sample) {
        let ghost start = self.chain@;
        let mut output = input;
        let mut i: usize = 0;
        while i < self.chain.len()
            invariant
                start == old(self).chain@,
                0 <= i <= start.len(),
                self.chain@.len() == start.len(),
                output == run(start.take(i as int), input),
                forall|j: int| i <= j < start.len() ==> self.chain@[j] == start[j],
                forall|j: int|
                    0 <= j < i ==> #[trigger] start[j].moves_to(
                        run(start.take(j), input),
                        self.chain@[j],
                    ),
            decreases start.len() - i,
        {
            proof {
                lemma_run_take(start, i as int, input);
            }
            output = self.chain[i].process(output);
            i = i + 1;
        }
        assert(start.take(start.len() as int) == start);
        output
    }
}

/// Composing two effects in a chain is the same as feeding the output of
/// the first into the second.
pub proof fn chain_composition<E: Effect>(chain: Chain<E>, input: Sample)
    requires
        chain.chain@.len() == 2,
    ensures
        chain.processed(input) == chain.chain@[1].processed(chain.chain@[0].processed(input)),
{
    let s = chain.chain@;
    reveal_with_fuel(run, 3);
    assert(s.drop_last().drop_last() == Seq::<E>::empty());
    assert(s.drop_last().last() == s[0]);
}

} // verus!
