//! The registry shared: a set of streams that any number of owners may
//! change and poll, each through the one lock that guards it.
//!
//! The lock is `std::sync::Mutex`. It is held for one registry operation and
//! never across a suspension. A poll does not wait for it: where another owner
//! holds it, the poll asks to be woken again and reports that nothing is ready,
//! so that a scheduler with a single thread cannot lock itself up. It does the
//! same while no stream has been attached yet: nothing is ready, and no stream
//! is there that would wake the task.
//!
//! What the registry holds at the moment of a call depends on what the other
//! owners have done, and so does the state of the lock. Each operation is
//! therefore stated in two steps. What it does once the lock has answered is a
//! function of its own, stated in full over the registry that the guard holds:
//! [`attach_locked`], [`detach_locked`], [`poll_after`]. The operation itself
//! states that it is that function, applied to some answer of its own lock.

use vstd::prelude::*;
use std::sync::Arc;
use std::sync::Mutex;
use std::sync::MutexGuard;
use crate::common::tunnel_source::named_stream::{NamedBoxedStream, TunnelStream};
use crate::common::tunnel_source::registry::{
    attached_to, detached_from, entry_of, no_entries, polled_once, MergePoll, StreamRegistry,
};

verus! {

#[verifier::external_type_specification]
#[verifier::external_body]
#[verifier::reject_recursive_types(T)]
pub struct ExMutex<T: ?Sized>(Mutex<T>);

#[verifier::external_type_specification]
#[verifier::external_body]
#[verifier::reject_recursive_types(T)]
pub struct ExMutexGuard<'a, T: ?Sized + 'a>(MutexGuard<'a, T>);

#[verifier::external_type_specification]
#[verifier::external_body]
pub struct ExWaker(std::task::Waker);

/// The registry around which a lock was made: what the lock guarded before
/// any owner changed it.
pub uninterp spec fn cell_made_with(cell: Mutex<StreamRegistry>) -> StreamRegistry;

/// The lock that a guard holds.
pub uninterp spec fn guard_cell(guard: MutexGuard<'_, StreamRegistry>) -> Mutex<StreamRegistry>;

/// The registry that a guard gives access to: the one behind the lock that
/// the guard holds.
pub uninterp spec fn guarded_registry(guard: MutexGuard<'_, StreamRegistry>) -> StreamRegistry;

/// The lock was poisoned: an owner failed while it held the registry, which
/// can no longer be trusted. There is no recovery; the caller gives up.
#[derive(Clone, Copy, Debug, PartialEq, Eq, Structural)]
pub struct LockPoisoned {}

/// What an attempt to take the lock without waiting came to.
pub enum LockAttempt<'a> {
    /// The lock is held now, through this guard.
    Acquired(MutexGuard<'a, StreamRegistry>),
    /// Another owner holds the lock.
    Contended,
    /// The lock is poisoned.
    Poisoned,
}

/// Whether `locked` is an answer of the lock `cell`: a guard in it holds that
/// lock and no other.
pub open spec fn locked_on(
    locked: Result<MutexGuard<'_, StreamRegistry>, LockPoisoned>,
    cell: Mutex<StreamRegistry>,
) -> bool {
    locked matches Ok(guard) ==> guard_cell(guard) == cell
}

/// Whether `attempt` is an answer of the lock `cell`: a guard in it holds that
/// lock and no other.
pub open spec fn attempted_on(attempt: LockAttempt<'_>, cell: Mutex<StreamRegistry>) -> bool {
    attempt matches LockAttempt::Acquired(guard) ==> guard_cell(guard) == cell
}

/// What attaching `source` comes to once the lock has answered `before`.
///
/// Under the lock, the registry that the guard holds gets `source` under its
/// id and gives up what it had there, and the guard is kept. A poisoned lock
/// gives `LockPoisoned`, and nothing is attached.
pub open spec fn attach_outcome(
    before: Result<MutexGuard<'_, StreamRegistry>, LockPoisoned>,
    source: NamedBoxedStream,
    displaced: Result<Option<NamedBoxedStream>, LockPoisoned>,
    after: Result<MutexGuard<'_, StreamRegistry>, LockPoisoned>,
) -> bool {
    match before {
        Ok(guard) => {
            &&& after matches Ok(kept) && guard_cell(kept) == guard_cell(guard) && attached_to(
                guarded_registry(guard),
                source,
                guarded_registry(kept),
            )
            &&& displaced == Ok::<Option<NamedBoxedStream>, LockPoisoned>(
                entry_of(guarded_registry(guard)@, source.id),
            )
        },
        Err(_) => {
            &&& after is Err
            &&& displaced == Err::<Option<NamedBoxedStream>, LockPoisoned>(LockPoisoned {})
        },
    }
}

/// What detaching `id` comes to once the lock has answered `before`.
///
/// Under the lock, the registry that the guard holds gives up its entry under
/// `id`, and the guard is kept. A poisoned lock gives `LockPoisoned`, and
/// nothing is detached.
pub open spec fn detach_outcome(
    before: Result<MutexGuard<'_, StreamRegistry>, LockPoisoned>,
    id: u32,
    detached: Result<Option<NamedBoxedStream>, LockPoisoned>,
    after: Result<MutexGuard<'_, StreamRegistry>, LockPoisoned>,
) -> bool {
    match before {
        Ok(guard) => {
            &&& after matches Ok(kept) && guard_cell(kept) == guard_cell(guard) && detached_from(
                guarded_registry(guard),
                id,
                guarded_registry(kept),
            )
            &&& detached == Ok::<Option<NamedBoxedStream>, LockPoisoned>(
                entry_of(guarded_registry(guard)@, id),
            )
        },
        Err(_) => {
            &&& after is Err
            &&& detached == Err::<Option<NamedBoxedStream>, LockPoisoned>(LockPoisoned {})
        },
    }
}

/// What a poll comes to once its attempt at the lock has answered `before`.
///
/// With the lock, it is one poll of the registry that the guard holds, and
/// the guard is kept. Without it, the poll does not wait: it reports
/// `NotReady`. A poisoned lock gives `LockPoisoned`.
pub open spec fn poll_outcome(
    before: LockAttempt<'_>,
    polled: Result<MergePoll, LockPoisoned>,
    after: LockAttempt<'_>,
) -> bool {
    match before {
        LockAttempt::Acquired(guard) => {
            &&& after matches LockAttempt::Acquired(kept) && guard_cell(kept) == guard_cell(guard)
                && (polled matches Ok(outcome) && polled_once(
                guarded_registry(guard),
                outcome,
                guarded_registry(kept),
            ))
        },
        LockAttempt::Contended => {
            &&& after is Contended
            &&& polled == Ok::<MergePoll, LockPoisoned>(MergePoll::NotReady)
        },
        LockAttempt::Poisoned => {
            &&& after is Poisoned
            &&& polled == Err::<MergePoll, LockPoisoned>(LockPoisoned {})
        },
    }
}

/// Whether a poll that found the lock in the state `before` has to ask the
/// waker to schedule the task again. It has to where it reports `NotReady`
/// and has polled no stream that would wake the task: where the lock was
/// contended, and where no stream was ever attached to the registry.
pub open spec fn retry_owed(before: LockAttempt<'_>) -> bool {
    match before {
        LockAttempt::Acquired(guard) => !guarded_registry(guard).ever_attached(),
        LockAttempt::Contended => true,
        LockAttempt::Poisoned => false,
    }
}

/// Whether `displaced` is what attaching `source` gives on some answer of the
/// lock `cell`.
pub open spec fn attaches_on(
    cell: Mutex<StreamRegistry>,
    source: NamedBoxedStream,
    displaced: Result<Option<NamedBoxedStream>, LockPoisoned>,
) -> bool {
    exists|
        before: Result<MutexGuard<'_, StreamRegistry>, LockPoisoned>,
        after: Result<MutexGuard<'_, StreamRegistry>, LockPoisoned>,
    |
        locked_on(before, cell) && #[trigger] attach_outcome(before, source, displaced, after)
}

/// Whether `detached` is what detaching `id` gives on some answer of the lock
/// `cell`.
pub open spec fn detaches_on(
    cell: Mutex<StreamRegistry>,
    id: u32,
    detached: Result<Option<NamedBoxedStream>, LockPoisoned>,
) -> bool {
    exists|
        before: Result<MutexGuard<'_, StreamRegistry>, LockPoisoned>,
        after: Result<MutexGuard<'_, StreamRegistry>, LockPoisoned>,
    |
        locked_on(before, cell) && #[trigger] detach_outcome(before, id, detached, after)
}

/// Whether `polled` is what a poll gives on some answer of one attempt at the
/// lock `cell`.
pub open spec fn polls_on(cell: Mutex<StreamRegistry>, polled: Result<MergePoll, LockPoisoned>) -> bool {
    exists|before: LockAttempt<'_>, after: LockAttempt<'_>|
        attempted_on(before, cell) && #[trigger] poll_outcome(before, polled, after)
}

/// A set of streams that can be changed while it is polled.
pub struct DynamicStreamSet {
    streams: Arc<Mutex<StreamRegistry>>,
}

/// A second owner of a set's registry, for polling.
pub struct DynamicStreamSetHandle {
    streams: Arc<Mutex<StreamRegistry>>,
}

impl DynamicStreamSetHandle {
    /// The lock, and with it the registry, that this handle polls.
    pub closed spec fn cell(&self) -> Mutex<StreamRegistry> {
        *self.streams
    }

    /// Polls the shared registry once, as [`DynamicStreamSet::poll_next`]
    /// does: the same poll, on the lock that the handle shares with its set.
    pub fn poll_next(&self, cx: &mut std::task::Context<'_>) -> (polled: Result<
        MergePoll,
        LockPoisoned,
    >)
        ensures
            polls_on(self.cell(), polled),
    {
        poll_shared(&self.streams, cx)
    }
}

impl DynamicStreamSet {
    /// The lock, and with it the registry, that this set works on.
    pub closed spec fn cell(&self) -> Mutex<StreamRegistry> {
        *self.streams
    }

    /// A set with a registry of its own, which is empty: the lock is made
    /// around a registry without streams, to which none was ever attached.
    /// What the registry holds later is what its owners have attached since.
    pub fn new() -> (set: DynamicStreamSet)
        ensures
            cell_made_with(set.cell())@ == no_entries(),
            !cell_made_with(set.cell()).ever_attached(),
    {
        DynamicStreamSet { streams: Arc::new(new_cell(StreamRegistry::new())) }
    }

    /// Files `source` under its id in the shared registry and hands back what
    /// it displaced: [`attach_locked`] on what this set's lock answers, after
    /// waiting for the lock if another owner holds it.
    pub fn attach(&self, source: NamedBoxedStream) -> (displaced: Result<
        Option<NamedBoxedStream>,
        LockPoisoned,
    >)
        ensures
            attaches_on(self.cell(), source, displaced),
            displaced matches Ok(Some(previous)) ==> previous.id == source.id,
    {
        let mut locked = lock_cell(&self.streams);
        let ghost before = locked;
        let displaced = attach_locked(&mut locked, source);
        proof {
            assert(attach_outcome(before, source, displaced, locked));
        }
        displaced
    }

    /// Names `stream` and files it, as [`DynamicStreamSet::attach`] does.
    pub fn attach_stream(&self, id: u32, stream: TunnelStream) -> (displaced: Result<
        Option<NamedBoxedStream>,
        LockPoisoned,
    >)
        ensures
            attaches_on(self.cell(), NamedBoxedStream { id, stream }, displaced),
            displaced matches Ok(Some(previous)) ==> previous.id == id,
    {
        let endpoint = NamedBoxedStream::new_pre_boxed(id, stream);
        self.attach(endpoint)
    }

    /// Takes the entry under `id` out of the shared registry and hands it
    /// back: [`detach_locked`] on what this set's lock answers, after waiting
    /// for the lock if another owner holds it.
    pub fn detach(&self, id: &u32) -> (detached: Result<Option<NamedBoxedStream>, LockPoisoned>)
        ensures
            detaches_on(self.cell(), *id, detached),
            detached matches Ok(Some(entry)) ==> entry.id == *id,
    {
        let mut locked = lock_cell(&self.streams);
        let ghost before = locked;
        let detached = detach_locked(&mut locked, id);
        proof {
            assert(detach_outcome(before, *id, detached, locked));
        }
        detached
    }

    /// Another owner of this set's registry.
    pub fn handle(&self) -> (handle: DynamicStreamSetHandle)
        ensures
            handle.cell() == self.cell(),
    {
        DynamicStreamSetHandle { streams: self.streams.clone() }
    }

    /// This set's registry under a handle; the set itself is used up.
    pub fn into_handle(self) -> (handle: DynamicStreamSetHandle)
        ensures
            handle.cell() == self.cell(),
    {
        DynamicStreamSetHandle { streams: self.streams }
    }

    /// Polls the shared registry once without waiting for the lock:
    /// [`poll_after`] on what one attempt at this set's lock answers.
    pub fn poll_next(&self, cx: &mut std::task::Context<'_>) -> (polled: Result<
        MergePoll,
        LockPoisoned,
    >)
        ensures
            polls_on(self.cell(), polled),
    {
        poll_shared(&self.streams, cx)
    }
}

/// What a poll reports with the lock in hand comes from the registry behind
/// the lock. It reports a tunnel only under an id that is registered there,
/// and `Finished` only when streams were attached and the poll has left none.
/// It asks to be woken only where no stream was ever attached, and then it
/// reports `NotReady` and has changed nothing.
pub proof fn held_lock_polls_the_registry(
    before: LockAttempt<'_>,
    polled: Result<MergePoll, LockPoisoned>,
    after: LockAttempt<'_>,
)
    requires
        before is Acquired,
        poll_outcome(before, polled, after),
    ensures
        polled is Ok,
        after is Acquired,
        polled matches Ok(MergePoll::Item(id, _)) ==> guarded_registry(
            before->Acquired_0,
        )@.contains_key(id) && guarded_registry(after->Acquired_0)@.contains_key(id),
        polled == Ok::<MergePoll, LockPoisoned>(MergePoll::Finished) ==> guarded_registry(
            before->Acquired_0,
        ).ever_attached() && guarded_registry(after->Acquired_0)@ == no_entries(),
        retry_owed(before) ==> polled == Ok::<MergePoll, LockPoisoned>(MergePoll::NotReady)
            && guarded_registry(after->Acquired_0) == guarded_registry(before->Acquired_0),
{
}

/// One poll of the registry behind `cell`, whoever asks.
fn poll_shared(cell: &Mutex<StreamRegistry>, cx: &mut std::task::Context<'_>) -> (polled: Result<
    MergePoll,
    LockPoisoned,
>)
    ensures
        polls_on(*cell, polled),
{
    let mut attempt = try_lock_cell(cell);
    let ghost before = attempt;
    let (polled, retry) = poll_after(&mut attempt, cx);
    proof {
        assert(poll_outcome(before, polled, attempt));
    }
    if retry {
        cx.waker().wake_by_ref();
    }
    polled
}

/// Attaches `source` to the registry that a guard holds.
pub fn attach_under(guard: &mut MutexGuard<'_, StreamRegistry>, source: NamedBoxedStream) -> (displaced:
    Option<NamedBoxedStream>)
    ensures
        guard_cell(*final(guard)) == guard_cell(*old(guard)),
        attached_to(guarded_registry(*old(guard)), source, guarded_registry(*final(guard))),
        displaced == entry_of(guarded_registry(*old(guard))@, source.id),
{
    guarded(guard).attach(source)
}

/// Detaches the entry under `id` from the registry that a guard holds.
pub fn detach_under(guard: &mut MutexGuard<'_, StreamRegistry>, id: &u32) -> (detached: Option<
    NamedBoxedStream,
>)
    ensures
        guard_cell(*final(guard)) == guard_cell(*old(guard)),
        detached_from(guarded_registry(*old(guard)), *id, guarded_registry(*final(guard))),
        detached == entry_of(guarded_registry(*old(guard))@, *id),
{
    guarded(guard).detach(id)
}

/// Polls the registry that a guard holds, once.
pub fn poll_locked(guard: &mut MutexGuard<'_, StreamRegistry>, cx: &mut std::task::Context<'_>) -> (outcome:
    MergePoll)
    ensures
        guard_cell(*final(guard)) == guard_cell(*old(guard)),
        polled_once(guarded_registry(*old(guard)), outcome, guarded_registry(*final(guard))),
{
    guarded(guard).poll(cx)
}

/// What attaching does once the lock has answered: see [`attach_outcome`].
pub fn attach_locked(
    locked: &mut Result<MutexGuard<'_, StreamRegistry>, LockPoisoned>,
    source: NamedBoxedStream,
) -> (displaced: Result<Option<NamedBoxedStream>, LockPoisoned>)
    ensures
        attach_outcome(*old(locked), source, displaced, *final(locked)),
{
    match locked {
        Ok(guard) => Ok(attach_under(guard, source)),
        Err(_) => Err(LockPoisoned {}),
    }
}

/// What detaching does once the lock has answered: see [`detach_outcome`].
pub fn detach_locked(
    locked: &mut Result<MutexGuard<'_, StreamRegistry>, LockPoisoned>,
    id: &u32,
) -> (detached: Result<Option<NamedBoxedStream>, LockPoisoned>)
    ensures
        detach_outcome(*old(locked), *id, detached, *final(locked)),
{
    match locked {
        Ok(guard) => Ok(detach_under(guard, id)),
        Err(_) => Err(LockPoisoned {}),
    }
}

/// Whether a stream was ever attached to the registry that a guard holds.
pub fn attached_under(guard: &mut MutexGuard<'_, StreamRegistry>) -> (attached: bool)
    ensures
        attached == guarded_registry(*old(guard)).ever_attached(),
        guard_cell(*final(guard)) == guard_cell(*old(guard)),
        guarded_registry(*final(guard)) == guarded_registry(*old(guard)),
{
    guarded(guard).ever_attached()
}

/// What a poll does once its attempt at the lock is known: see
/// [`poll_outcome`]. With the result comes the decision whether the waker has
/// to be asked to schedule the task again: see [`retry_owed`]. The poll never
/// waits for the lock.
pub fn poll_after(attempt: &mut LockAttempt<'_>, cx: &mut std::task::Context<'_>) -> (report: (
    Result<MergePoll, LockPoisoned>,
    bool,
))
    ensures
        poll_outcome(*old(attempt), report.0, *final(attempt)),
        report.1 == retry_owed(*old(attempt)),
{
    match attempt {
        LockAttempt::Acquired(guard) => {
            let retry = !attached_under(guard);
            (Ok(poll_locked(guard, cx)), retry)
        },
        LockAttempt::Contended => (Ok(MergePoll::NotReady), true),
        LockAttempt::Poisoned => (Err(LockPoisoned {}), false),
    }
}

/// `Mutex::new`: a lock, free and not poisoned, made around `registry`.
#[verifier::external_body]
fn new_cell(registry: StreamRegistry) -> (cell: Mutex<StreamRegistry>)
    ensures
        cell_made_with(cell) == registry,
{
    Mutex::new(registry)
}

/// `Context::waker` hands out the waker of the task that is being polled.
pub assume_specification<'a, 'b>[ std::task::Context::<'a>::waker ](
    cx: &'b std::task::Context<'a>,
) -> (waker: &'a std::task::Waker);

/// `Waker::wake_by_ref` asks the scheduler to poll the waker's task again. It
/// returns nothing, and nothing is claimed of it.
pub assume_specification[ std::task::Waker::wake_by_ref ](waker: &std::task::Waker);

/// `Mutex::lock`: waits until the lock is free and takes it; the guard that
/// comes back holds this lock. The guard gives up the lock when it is
/// dropped. A poisoned lock is not taken. Asked for by the thread that holds
/// the lock already, as a stream would that attached or detached from inside
/// its own poll, std leaves open whether the call fails or never comes back:
/// no stream of a set may do so.
#[verifier::external_body]
fn lock_cell<'a>(cell: &'a Mutex<StreamRegistry>) -> (locked: Result<
    MutexGuard<'a, StreamRegistry>,
    LockPoisoned,
>)
    ensures
        locked_on(locked, *cell),
{
    match cell.lock() {
        Ok(guard) => Ok(guard),
        Err(_) => Err(LockPoisoned {}),
    }
}

/// `Mutex::try_lock`: takes the lock if it is free, and returns at once if it
/// is not; a guard that comes back holds this lock.
#[verifier::external_body]
fn try_lock_cell<'a>(cell: &'a Mutex<StreamRegistry>) -> (attempt: LockAttempt<'a>)
    ensures
        attempted_on(attempt, *cell),
{
    match cell.try_lock() {
        Ok(guard) => LockAttempt::Acquired(guard),
        Err(std::sync::TryLockError::WouldBlock) => LockAttempt::Contended,
        Err(std::sync::TryLockError::Poisoned(_)) => LockAttempt::Poisoned,
    }
}

/// `MutexGuard`'s `DerefMut::deref_mut`: the registry behind the lock, for as
/// long as the guard is borrowed. What is done to it through the reference is
/// done to the registry that the guard holds, and the guard goes on holding
/// the same lock.
#[verifier::external_body]
fn guarded<'a, 'b>(guard: &'a mut MutexGuard<'b, StreamRegistry>) -> (registry:
    &'a mut StreamRegistry)
    ensures
        *registry == guarded_registry(*old(guard)),
        guarded_registry(*final(guard)) == *final(registry),
        guard_cell(*final(guard)) == guard_cell(*old(guard)),
{
    &mut **guard
}

} // verus!
