//! Parameter channels: configuration snapshots carried from producer handles
//! to the one holder that the audio thread polls.
//!
//! A [`Config`] is the holder. It hands out its producer, a [`ConfigClient`],
//! at most once. The producer keeps a local copy of the last snapshot it
//! sent; the holder replaces its authoritative snapshot with the latest one
//! queued whenever it is polled. [`ComposeConfig`] layers a reducer over the
//! producer, so that producers send small actions that are folded into their
//! local copy, and [`ValidatedConfig`] drops snapshots that a predicate
//! rejects.
use std::marker::PhantomData;
use std::sync::mpsc::{Receiver, Sender};
use vstd::prelude::*;

verus! {

/// The sending half of `std::sync::mpsc`, carried as an opaque value.
#[verifier::external_type_specification]
#[verifier::external_body]
#[verifier::reject_recursive_types(T)]
pub struct ExSender<T>(Sender<T>);

/// The receiving half of `std::sync::mpsc`, carried as an opaque value.
#[verifier::external_type_specification]
#[verifier::external_body]
#[verifier::reject_recursive_types(T)]
pub struct ExReceiver<T>(Receiver<T>);

/// Relies on `std::sync::mpsc::channel`: a new, connected, empty queue.
#[verifier::external_body]
fn open_channel<C>() -> (Sender<C>, Receiver<C>) {
    std::sync::mpsc::channel()
}

/// Relies on `Sender::send`: `true` when the value was queued, `false` when
/// the receiving half no longer exists.
#[verifier::external_body]
fn send_snapshot<C>(sender: &Sender<C>, snapshot: C) -> bool {
    sender.send(snapshot).is_ok()
}

/// Relies on `Receiver::try_recv`: the oldest queued value, or `None` when
/// nothing is queued or every sender is gone. It never blocks.
#[verifier::external_body]
fn receive_snapshot<C>(receiver: &Receiver<C>) -> Option<C> {
    receiver.try_recv().ok()
}

/// A value that can travel through a parameter channel: it can be copied
/// without changing what it stands for.
pub trait Snapshot: View + Sized {
    fn duplicate(&self) -> (r: Self)
        ensures
            r@ == self@,
    ;
}

impl Snapshot for i32 {
    fn duplicate(&self) -> (r: Self) {
        *self
    }
}

/// Why an update did not reach the holder.
#[derive(Debug, Clone, Copy, PartialEq, Eq, Structural)]
pub enum UpdateError {
    /// The holder no longer exists.
    Disconnected,
    /// The snapshot failed the channel's predicate; nothing was sent.
    Rejected,
}

/// Latest wins: when a holder takes a nonempty run of snapshots one after
/// another (each step is what [`Config::accept`] does), it ends up holding
/// the last one, however many came before, and keeps its producer slot;
/// a producer that sent the same run (each step is what
/// [`ConfigClient::update`] does to its cache) caches that same snapshot.
pub proof fn latest_wins<C: Snapshot>(
    holders: Seq<Config<C>>,
    clients: Seq<ConfigClient<C>>,
    updates: Seq<C>,
)
    requires
        updates.len() > 0,
        holders.len() == updates.len() + 1,
        clients.len() == updates.len() + 1,
        forall|i: int|
            0 <= i < updates.len() ==> #[trigger] holders[i + 1] == holders[i].with_held(updates[i]),
        forall|i: int| 0 <= i < updates.len() ==> #[trigger] clients[i + 1].cached() == updates[i]@,
    ensures
        holders.last().held() == updates.last(),
        holders.last().producer() == holders[0].producer(),
        clients.last().cached() == holders.last().held()@,
{
    let j = updates.len() - 1;
    assert(holders[j + 1] == holders[j].with_held(updates[j]));
    assert(clients[j + 1].cached() == updates[j]@);
    lemma_producer_kept(holders, updates, j + 1);
}

proof fn lemma_producer_kept<C: Snapshot>(holders: Seq<Config<C>>, updates: Seq<C>, k: int)
    requires
        holders.len() == updates.len() + 1,
        0 <= k <= updates.len(),
        forall|i: int|
            0 <= i < updates.len() ==> #[trigger] holders[i + 1] == holders[i].with_held(updates[i]),
    ensures
        holders[k].producer() == holders[0].producer(),
    decreases k,
{
    if k > 0 {
        let j = k - 1;
        lemma_producer_kept(holders, updates, j);
        assert(holders[j + 1] == holders[j].with_held(updates[j]));
    }
}

/// The producer side of a parameter channel.
#[verifier::reject_recursive_types(C)]
pub struct ConfigClient<C> {
    sender: Sender<C>,
    current: C,
}

impl<C: Snapshot> ConfigClient<C> {
    /// The snapshot this producer last sent (its local cache).
    pub closed spec fn cached(&self) -> C::V {
        self.current@
    }

    pub fn new(sender: Sender<C>, config: C) -> (r: Self)
        ensures
            r.cached() == config@,
    {
        Self { sender, current: config }
    }

    /// Replaces the local cache by `snapshot` and queues it for the holder.
    pub fn update(&mut self, snapshot: C) -> (r: Result<(), UpdateError>)
        ensures
            final(self).cached() == snapshot@,
            r != Err::<(), UpdateError>(UpdateError::Rejected),
    {
        let sent = snapshot.duplicate();
        self.current = snapshot;
        if send_snapshot(&self.sender, sent) {
            Ok(())
        } else {
            Err(UpdateError::Disconnected)
        }
    }

    /// The local cache; not necessarily what the holder uses right now.
    pub fn get(&self) -> (r: C)
        ensures
            r@ == self.cached(),
    {
        self.current.duplicate()
    }
}

/// The holder side of a parameter channel.
#[verifier::reject_recursive_types(C)]
pub struct Config<C> {
    receiver: Receiver<C>,
    client: Option<ConfigClient<C>>,
    /// The authoritative snapshot.
    pub config: C,
}

impl<C: Snapshot> Config<C> {
    /// The producer that has not been handed out yet, if any.
    pub closed spec fn producer(&self) -> Option<ConfigClient<C>> {
        self.client
    }

    /// The authoritative snapshot.
    pub closed spec fn held(&self) -> C {
        self.config
    }

    /// This holder with `c` as its authoritative snapshot.
    pub closed spec fn with_held(self, c: C) -> Self {
        Config { config: c, ..self }
    }

    /// `next` is this holder after a poll: at most its authoritative
    /// snapshot differs; its queue and its producer slot are the same.
    pub closed spec fn polls_to(&self, next: Self) -> bool {
        next == self.with_held(next.held())
    }

    /// What `with_held` keeps and what it replaces.
    pub proof fn lemma_with_held(self, c: C)
        ensures
            self.with_held(c).held() == c,
            self.with_held(c).producer() == self.producer(),
            self.polls_to(self.with_held(c)),
            self.polls_to(self),
            self.with_held(self.held()) == self,
    {
    }

    /// Reads the authoritative snapshot.
    pub fn current(&self) -> (r: &C)
        ensures
            *r == self.held(),
    {
        &self.config
    }

    pub fn new(config: C) -> (r: Self)
        ensures
            r.held()@ == config@,
            r.producer() is Some,
            r.producer().unwrap().cached() == config@,
    {
        let (sender, receiver) = open_channel();
        let held = config.duplicate();
        Self { config: held, client: Some(ConfigClient::new(sender, config)), receiver }
    }

    /// Takes one snapshot from the queue: it replaces the held one.
    pub fn accept(&mut self, snapshot: C)
        ensures
            *final(self) == old(self).with_held(snapshot),
            final(self).held() == snapshot,
            final(self).producer() == old(self).producer(),
    {
        self.config = snapshot;
    }

    /// Drains the queue without blocking: each snapshot taken replaces the
    /// held one through [`Config::accept`], so the last one drained is held.
    /// Returns how many were drained; with none, nothing changes.
    pub fn try_update(&mut self) -> (n: usize)
        ensures
            old(self).polls_to(*final(self)),
            n == 0 ==> *final(self) == *old(self),
            final(self).producer() == old(self).producer(),
    {
        let mut n: usize = 0;
        loop
            invariant
                old(self).polls_to(*self),
                n == 0 ==> *self == *old(self),
            decreases usize::MAX - n,
        {
            match receive_snapshot(&self.receiver) {
                Some(snapshot) => {
                    if n == usize::MAX {
                        break;
                    }
                    self.accept(snapshot);
                    n = n + 1;
                },
                None => break,
            }
        }
        n
    }

    /// Hands out the producer; `None` once it has been taken.
    pub fn get_client(&mut self) -> (r: Option<ConfigClient<C>>)
        ensures
            r == old(self).producer(),
            final(self).producer() is None,
            final(self).held() == old(self).held(),
    {
        self.client.take()
    }
}

/// A unit whose parameter channels can be polled from the audio thread.
pub trait ConfigReceiver: Sized {
    /// `next` is this unit after one poll: its own holder has drained its
    /// channel, each of its parts has been polled in turn, and nothing else
    /// has changed (parts, phases and frequencies are kept).
    spec fn polled(&self, next: Self) -> bool;

    /// Drains the unit's own channel, then polls each of its parts.
    fn try_update_configs(&mut self)
        ensures
            old(self).polled(*final(self)),
    ;
}

/// A unit that exposes its authoritative snapshot.
pub trait HasConfig<C> {
    /// The authoritative snapshot.
    spec fn shown(&self) -> C;

    fn get(&self) -> (r: &C)
        ensures
            *r == self.shown(),
    ;
}

/// A pure function from the current snapshot and an action to the next
/// snapshot.
pub trait Reducer<C: View, D> {
    spec fn next(&self, current: C::V, action: D) -> C::V;

    fn reduce(&self, current: C, action: D) -> (r: C)
        ensures
            r@ == self.next(current@, action),
    ;
}

/// A producer that sends actions; each is folded into its local cache by
/// the reducer, and the result is what the holder receives.
///
/// Edits are computed against this producer's cache, not against the
/// holder's state: two producers editing one parameter may race.
#[verifier::reject_recursive_types(C)]
pub struct ComposeConfigClient<C, D, F> {
    f: F,
    client: ConfigClient<C>,
    _phantom: PhantomData<D>,
}

impl<C: Snapshot, D, F: Reducer<C, D>> ComposeConfigClient<C, D, F> {
    /// The snapshot this producer last sent.
    pub closed spec fn cached(&self) -> C::V {
        self.client.cached()
    }

    /// The reducer applied to each action.
    pub closed spec fn reducer(&self) -> F {
        self.f
    }

    pub fn new(f: F, client: ConfigClient<C>) -> (r: Self)
        ensures
            r.cached() == client.cached(),
            r.reducer() == f,
    {
        Self { f, client, _phantom: PhantomData }
    }

    /// Folds `action` into the local cache and sends the result.
    pub fn update(&mut self, action: D) -> (r: Result<(), UpdateError>)
        ensures
            final(self).cached() == old(self).reducer().next(old(self).cached(), action),
            final(self).reducer() == old(self).reducer(),
            r != Err::<(), UpdateError>(UpdateError::Rejected),
    {
        let current = self.client.get();
        let next = self.f.reduce(current, action);
        self.client.update(next)
    }

    pub fn get(&self) -> (r: C)
        ensures
            r@ == self.cached(),
    {
        self.client.get()
    }
}

/// A holder whose producer sends actions through a reducer.
#[verifier::reject_recursive_types(C)]
pub struct ComposeConfig<C, D, F> {
    pub config: Config<C>,
    client: Option<ComposeConfigClient<C, D, F>>,
}

impl<C: Snapshot, D, F: Reducer<C, D>> ComposeConfig<C, D, F> {
    /// The authoritative snapshot.
    pub closed spec fn held(&self) -> C {
        self.config.held()
    }

    /// The producer that has not been handed out yet, if any.
    pub closed spec fn producer(&self) -> Option<ComposeConfigClient<C, D, F>> {
        self.client
    }

    pub fn new(default: C, f: F) -> (r: Self)
        ensures
            r.held()@ == default@,
            r.producer() is Some,
            r.producer().unwrap().cached() == default@,
            r.producer().unwrap().reducer() == f,
            r.holder().producer() is None,
    {
        let mut config = Config::new(default);
        let config_client = config.get_client().unwrap();
        Self { config, client: Some(ComposeConfigClient::new(f, config_client)) }
    }

    /// The inner holder, reachable as the public field `config`.
    pub closed spec fn holder(&self) -> Config<C> {
        self.config
    }

    /// `next` is this holder after a poll: at most its authoritative
    /// snapshot differs.
    pub closed spec fn polls_to(&self, next: Self) -> bool {
        self.config.polls_to(next.config) && next.client == self.client
    }

    /// Drains the queue; see [`Config::try_update`].
    pub fn try_update(&mut self) -> (n: usize)
        ensures
            old(self).polls_to(*final(self)),
            n == 0 ==> *final(self) == *old(self),
            final(self).producer() == old(self).producer(),
    {
        self.config.try_update()
    }

    /// A poll that drains nothing is a poll.
    pub proof fn lemma_polls_to_self(self)
        ensures
            self.polls_to(self),
    {
        self.config.lemma_with_held(self.config.held());
    }

    /// Reads the authoritative snapshot.
    pub fn current(&self) -> (r: &C)
        ensures
            *r == self.held(),
    {
        self.config.current()
    }

    /// Hands out the producer; `None` once it has been taken.
    pub fn get_client(&mut self) -> (r: Option<ComposeConfigClient<C, D, F>>)
        ensures
            r == old(self).producer(),
            final(self).producer() is None,
            final(self).held() == old(self).held(),
    {
        self.client.take()
    }
}

impl<C: Snapshot, D, F: Reducer<C, D>> HasConfig<C> for ComposeConfig<C, D, F> {
    open spec fn shown(&self) -> C {
        self.held()
    }

    fn get(&self) -> (r: &C) {
        self.config.current()
    }
}

/// A predicate over proposed snapshots.
pub trait Validator<C: View> {
    spec fn accepts(&self, candidate: C::V) -> bool;

    fn check(&self, candidate: &C) -> (r: bool)
        ensures
            r == self.accepts(candidate@),
    ;
}

/// A producer that sends only the snapshots its predicate accepts.
#[verifier::reject_recursive_types(C)]
pub struct ValidatedConfigClient<C, P> {
    validator: P,
    client: ConfigClient<C>,
}

impl<C: Snapshot, P: Validator<C>> ValidatedConfigClient<C, P> {
    /// The snapshot this producer last sent.
    pub closed spec fn cached(&self) -> C::V {
        self.client.cached()
    }

    /// The predicate each snapshot must pass.
    pub closed spec fn validator(&self) -> P {
        self.validator
    }

    /// Sends `snapshot` if the predicate accepts it. A rejected snapshot is
    /// dropped: nothing is sent and the local cache is kept.
    pub fn update(&mut self, snapshot: C) -> (r: Result<(), UpdateError>)
        ensures
            final(self).validator() == old(self).validator(),
            old(self).validator().accepts(snapshot@) ==> final(self).cached() == snapshot@ && r
                != Err::<(), UpdateError>(UpdateError::Rejected),
            !old(self).validator().accepts(snapshot@) ==> final(self).cached() == old(
                self,
            ).cached() && r == Err::<(), UpdateError>(UpdateError::Rejected),
    {
        if self.validator.check(&snapshot) {
            self.client.update(snapshot)
        } else {
            Err(UpdateError::Rejected)
        }
    }

    pub fn get(&self) -> (r: C)
        ensures
            r@ == self.cached(),
    {
        self.client.get()
    }
}

/// A holder whose producer checks each snapshot before sending it.
#[verifier::reject_recursive_types(C)]
pub struct ValidatedConfig<C, P> {
    pub config: Config<C>,
    client: Option<ValidatedConfigClient<C, P>>,
}

impl<C: Snapshot, P: Validator<C>> ValidatedConfig<C, P> {
    /// The authoritative snapshot.
    pub closed spec fn held(&self) -> C {
        self.config.held()
    }

    /// The producer that has not been handed out yet, if any.
    pub closed spec fn producer(&self) -> Option<ValidatedConfigClient<C, P>> {
        self.client
    }

    pub fn new_validated(default: C, validator: P) -> (r: Self)
        ensures
            r.held()@ == default@,
            r.producer() is Some,
            r.producer().unwrap().cached() == default@,
            r.producer().unwrap().validator() == validator,
            r.holder().producer() is None,
    {
        let mut config = Config::new(default);
        let client = config.get_client().unwrap();
        Self { config, client: Some(ValidatedConfigClient { validator, client }) }
    }

    /// The inner holder, reachable as the public field `config`.
    pub closed spec fn holder(&self) -> Config<C> {
        self.config
    }

    /// `next` is this holder after a poll: at most its authoritative
    /// snapshot differs.
    pub closed spec fn polls_to(&self, next: Self) -> bool {
        self.config.polls_to(next.config) && next.client == self.client
    }

    /// Drains the queue; see [`Config::try_update`].
    pub fn try_update(&mut self) -> (n: usize)
        ensures
            old(self).polls_to(*final(self)),
            n == 0 ==> *final(self) == *old(self),
            final(self).producer() == old(self).producer(),
    {
        self.config.try_update()
    }

    /// A poll that drains nothing is a poll.
    pub proof fn lemma_polls_to_self(self)
        ensures
            self.polls_to(self),
    {
        self.config.lemma_with_held(self.config.held());
    }

    /// Reads the authoritative snapshot.
    pub fn current(&self) -> (r: &C)
        ensures
            *r == self.held(),
    {
        self.config.current()
    }

    /// Hands out the producer; `None` once it has been taken.
    pub fn get_client(&mut self) -> (r: Option<ValidatedConfigClient<C, P>>)
        ensures
            r == old(self).producer(),
            final(self).producer() is None,
            final(self).held() == old(self).held(),
    {
        self.client.take()
    }
}

} // verus!
