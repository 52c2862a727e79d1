//! The scalar latest-value channel: one overwritable value per channel.
//!
//! The guarded storage is a [`Slot`]: an optional pending value. A send
//! overwrites whatever is pending (last write wins); a receive drains the
//! slot. Each operation acquires the lock, swaps the slot out through the
//! held guard, runs the verified `put` or `take` on it, and swaps it back —
//! so the storage semantics run as verified code. Which value a receive
//! observes still depends on how concurrent senders interleave; what the
//! handle contracts pin down is the mapping from every lock outcome to the
//! caller-facing result, and that a failed send always hands the value
//! back.

use std::sync::Arc;
use std::sync::Mutex;
use std::sync::MutexGuard;

use crate::sync::guard_new;
use crate::sync::lock;
use crate::sync::share;
use crate::sync::try_lock;
use crate::sync::unlock;
use crate::sync::watch;
use crate::sync::watch_alive;
use crate::sync::watch_clone;
use crate::sync::watched_of;
use crate::sync::GuardBroken;
use crate::sync::GuardDenied;
use crate::sync::PeerWatch;
use crate::sync::Presence;

use vstd::prelude::*;

verus! {

/// The slot state after a store: exactly the stored value, whatever was
/// held before.
pub open spec fn stored_after_put<T>(held: Option<T>, t: T) -> Option<T> {
    Some(t)
}

/// What a take returns: the pending update, if any.
pub open spec fn take_result<T>(held: Option<T>) -> Option<T> {
    held
}

/// The slot state after a take: drained.
pub open spec fn stored_after_take<T>(held: Option<T>) -> Option<T> {
    None
}

/// The guarded storage of a scalar channel: at most one pending value.
/// Its view is the pending update, `None` once every send has been drained.
pub struct Slot<T> {
    value: Option<T>,
}

impl<T> View for Slot<T> {
    type V = Option<T>;

    closed spec fn view(&self) -> Option<T> {
        self.value
    }
}

impl<T> Slot<T> {
    /// A slot with no pending update.
    pub fn new() -> (s: Self)
        ensures
            s@ is None,
    {
        Slot { value: None }
    }

    /// Store a new update, overwriting any pending one: last write wins.
    pub fn put(&mut self, t: T)
        ensures
            final(self)@ == stored_after_put(old(self)@, t),
            final(self)@ == Some(t),
    {
        self.value = Some(t);
    }

    /// Take the pending update, leaving the slot drained.
    pub fn take(&mut self) -> (r: Option<T>)
        ensures
            r == take_result(old(self)@),
            final(self)@ == stored_after_take(old(self)@),
            r == old(self)@ && final(self)@ is None,
    {
        self.value.take()
    }
}

/// Overwrite: storing `v1` and then `v2` with no take between leaves the
/// slot exactly as storing `v2` alone would; a take then yields `v2`, and
/// `v1` is never observed.
pub proof fn lemma_overwrite<T>(held: Option<T>, v1: T, v2: T)
    ensures
        stored_after_put(stored_after_put(held, v1), v2) == stored_after_put(held, v2),
        take_result(stored_after_put(stored_after_put(held, v1), v2)) == Some(v2),
{
}

/// Idempotent drain: a take performed right after a take finds the slot
/// drained and yields nothing, never the same value twice.
pub proof fn lemma_drain_idempotent<T>(held: Option<T>)
    ensures
        take_result(stored_after_take(held)) is None,
{
}

/// The receiver is gone (or the lock is broken): the channel is closed and
/// the undelivered value comes back to the caller.
#[derive(Clone, Copy, PartialEq, Eq, Debug)]
pub struct SendError<T>(pub T);

/// Why a non-blocking send did not deliver; each variant hands the
/// undelivered value back.
#[derive(Clone, Copy, PartialEq, Eq, Debug)]
pub enum TrySendError<T> {
    /// The receiver is gone (or the lock is broken): the channel is closed.
    ChannelClosed(T),
    /// The lock is currently held elsewhere; retry later.
    WouldBlock(T),
}

/// Why a blocking receive yielded no value.
#[derive(Clone, Copy, PartialEq, Eq, Debug)]
pub enum RecvError {
    /// Every sender is gone (or the lock is broken): the channel is closed.
    ChannelClosed,
    /// Nothing has been sent since the last receive; an expected outcome.
    NoNewValue,
}

/// Why a non-blocking receive yielded no value.
#[derive(Clone, Copy, PartialEq, Eq, Debug)]
pub enum TryRecvError {
    /// Every sender is gone (or the lock is broken): the channel is closed.
    ChannelClosed,
    /// The lock is currently held elsewhere; retry later.
    WouldBlock,
    /// Nothing has been sent since the last receive; an expected outcome.
    NoNewValue,
}

/// The sending half of a scalar channel. Cloneable: all clones write into
/// the same slot.
#[verifier::reject_recursive_types(T)]
pub struct Sender<T: Send> {
    cell: Arc<Mutex<Slot<T>>>,
    #[allow(dead_code)]
    here: Arc<Presence>,
    peer: PeerWatch,
}

/// The receiving half of a scalar channel: drains the shared slot. Not
/// cloneable: the design assumes a single consumer.
#[verifier::reject_recursive_types(T)]
pub struct Receiver<T: Send> {
    cell: Arc<Mutex<Slot<T>>>,
    #[allow(dead_code)]
    here: Arc<Presence>,
    peer: PeerWatch,
}

/// Both handles of one channel share the same guarded cell.
pub closed spec fn linked<T: Send>(s: &Sender<T>, r: &Receiver<T>) -> bool {
    s.cell == r.cell
}

/// The factory's wiring: each handle watches the other side's token, never
/// its own, so only a truly vanished peer ever reads as gone.
pub closed spec fn cross_watched<T: Send>(s: &Sender<T>, r: &Receiver<T>) -> bool {
    &&& watched_of(s.peer) == *r.here
    &&& watched_of(r.peer) == *s.here
    &&& *s.here != *r.here
}

/// Two senders feed the same channel: same cell, same liveness token, same
/// watched peer.
pub closed spec fn same_channel<T: Send>(a: &Sender<T>, b: &Sender<T>) -> bool {
    &&& a.cell == b.cell
    &&& *a.here == *b.here
    &&& watched_of(a.peer) == watched_of(b.peer)
}

/// A cloned sender still feeds every receiver the original fed, wired the
/// same way.
pub proof fn lemma_clone_linked<T: Send>(a: &Sender<T>, b: &Sender<T>, r: &Receiver<T>)
    requires
        same_channel(a, b),
        linked(a, r),
        cross_watched(a, r),
    ensures
        linked(b, r),
        cross_watched(b, r),
{
}

/// Relies on `core::mem::replace` through the held guard: hands out the
/// slot the cell held and leaves the given one in its place. What comes out
/// depends on the sends that other threads completed before the lock was
/// acquired, so nothing is promised of it; everything done with either slot
/// happens in verified code while the guard is held.
#[verifier::external_body]
fn swap_slot<'a, T: Send>(held: &mut MutexGuard<'a, Slot<T>>, slot: Slot<T>) -> Slot<T> {
    core::mem::replace(&mut **held, slot)
}

/// What a non-blocking send reports for each lock outcome; the undelivered
/// value rides along in every failure.
pub fn settle_try_send<T: Send>(outcome: Result<(), (GuardDenied, T)>) -> (r: Result<
    (),
    TrySendError<T>,
>)
    ensures
        outcome is Ok ==> r is Ok,
        outcome matches Err((GuardDenied::Broken, v)) ==> r == Result::<(), TrySendError<T>>::Err(
            TrySendError::ChannelClosed(v),
        ),
        outcome matches Err((GuardDenied::Busy, v)) ==> r == Result::<(), TrySendError<T>>::Err(
            TrySendError::WouldBlock(v),
        ),
{
    match outcome {
        Ok(()) => Ok(()),
        Err((GuardDenied::Broken, v)) => Err(TrySendError::ChannelClosed(v)),
        Err((GuardDenied::Busy, v)) => Err(TrySendError::WouldBlock(v)),
    }
}

/// What a blocking receive reports for each drain outcome: a pending value
/// comes out, an empty slot reports no new value, a broken lock reports a
/// closed channel.
pub fn settle_recv<T: Send>(outcome: Result<Option<T>, GuardBroken>) -> (r: Result<T, RecvError>)
    ensures
        outcome matches Ok(Some(v)) ==> r == Result::<T, RecvError>::Ok(v),
        outcome matches Ok(None) ==> r == Result::<T, RecvError>::Err(RecvError::NoNewValue),
        outcome is Err ==> r == Result::<T, RecvError>::Err(RecvError::ChannelClosed),
{
    match outcome {
        Ok(Some(v)) => Ok(v),
        Ok(None) => Err(RecvError::NoNewValue),
        Err(_) => Err(RecvError::ChannelClosed),
    }
}

/// What a non-blocking receive reports for each drain outcome: as
/// `settle_recv`, with a busy lock reported as `WouldBlock`.
pub fn settle_try_recv<T: Send>(outcome: Result<Option<T>, GuardDenied>) -> (r: Result<
    T,
    TryRecvError,
>)
    ensures
        outcome matches Ok(Some(v)) ==> r == Result::<T, TryRecvError>::Ok(v),
        outcome matches Ok(None) ==> r == Result::<T, TryRecvError>::Err(TryRecvError::NoNewValue),
        outcome == Result::<Option<T>, GuardDenied>::Err(GuardDenied::Broken) ==> r == Result::<
            T,
            TryRecvError,
        >::Err(TryRecvError::ChannelClosed),
        outcome == Result::<Option<T>, GuardDenied>::Err(GuardDenied::Busy) ==> r == Result::<
            T,
            TryRecvError,
        >::Err(TryRecvError::WouldBlock),
{
    match outcome {
        Ok(Some(v)) => Ok(v),
        Ok(None) => Err(TryRecvError::NoNewValue),
        Err(GuardDenied::Broken) => Err(TryRecvError::ChannelClosed),
        Err(GuardDenied::Busy) => Err(TryRecvError::WouldBlock),
    }
}

impl<T: Send> Sender<T> {
    /// Send the latest value to the receiver, overwriting any unread one.
    /// Blocks only while the lock is contended, never waiting for the
    /// receiver to drain. A failed send (receiver gone, or the lock broken)
    /// hands the value back: it is never silently lost.
    pub fn send(&self, t: T) -> (r: Result<(), SendError<T>>)
        ensures
            r matches Err(e) ==> e == (SendError(t)),
    {
        if !watch_alive(&self.peer) {
            return Err(SendError(t));
        }
        match lock(&self.cell) {
            Ok(mut held) => {
                let mut slot = swap_slot(&mut held, Slot::new());
                slot.put(t);
                let _placeholder = swap_slot(&mut held, slot);
                unlock(held);
                Ok(())
            },
            Err(_) => Err(SendError(t)),
        }
    }

    /// Try to send the latest value without ever blocking: a contended lock
    /// reports `WouldBlock`, a vanished receiver or broken lock reports
    /// `ChannelClosed`; either failure hands the value back.
    pub fn try_send(&self, t: T) -> (r: Result<(), TrySendError<T>>)
        ensures
            r matches Err(TrySendError::ChannelClosed(v)) ==> v == t,
            r matches Err(TrySendError::WouldBlock(v)) ==> v == t,
    {
        if !watch_alive(&self.peer) {
            return Err(TrySendError::ChannelClosed(t));
        }
        match try_lock(&self.cell) {
            Ok(mut held) => {
                let mut slot = swap_slot(&mut held, Slot::new());
                slot.put(t);
                let _placeholder = swap_slot(&mut held, slot);
                unlock(held);
                Ok(())
            },
            Err(denied) => settle_try_send(Err((denied, t))),
        }
    }
}

impl<T: Send> Clone for Sender<T> {
    /// The clone feeds the same channel as the original; cloning never
    /// touches the lock and never fails.
    fn clone(&self) -> (r: Self)
        ensures
            same_channel(self, &r),
    {
        Sender {
            cell: share(&self.cell),
            here: share(&self.here),
            peer: watch_clone(&self.peer),
        }
    }
}

impl<T: Send> Receiver<T> {
    /// Take the latest value if one is pending, draining the slot. With
    /// every sender gone or the lock broken the channel is closed; with
    /// nothing pending the result is `NoNewValue`, an expected outcome.
    /// Blocks only while the lock is contended.
    pub fn recv(&self) -> (r: Result<T, RecvError>) {
        if !watch_alive(&self.peer) {
            return Err(RecvError::ChannelClosed);
        }
        match lock(&self.cell) {
            Ok(mut held) => {
                let mut slot = swap_slot(&mut held, Slot::new());
                let taken = slot.take();
                let _placeholder = swap_slot(&mut held, slot);
                unlock(held);
                settle_recv(Ok(taken))
            },
            Err(broken) => settle_recv(Err(broken)),
        }
    }

    /// As `recv`, but never blocks: a contended lock reports `WouldBlock`.
    pub fn try_recv(&self) -> (r: Result<T, TryRecvError>) {
        if !watch_alive(&self.peer) {
            return Err(TryRecvError::ChannelClosed);
        }
        match try_lock(&self.cell) {
            Ok(mut held) => {
                let mut slot = swap_slot(&mut held, Slot::new());
                let taken = slot.take();
                let _placeholder = swap_slot(&mut held, slot);
                unlock(held);
                settle_try_recv(Ok(taken))
            },
            Err(denied) => settle_try_recv(Err(denied)),
        }
    }
}

/// Build a connected scalar channel: a cloneable sender and the single
/// receiver, sharing one guarded slot with no pending value.
pub fn channel<T: Send>() -> (pair: (Sender<T>, Receiver<T>))
    ensures
        linked(&pair.0, &pair.1),
        cross_watched(&pair.0, &pair.1),
{
    let cell: Arc<Mutex<Slot<T>>> = Arc::new(guard_new(Slot::new()));
    let sender_token: Arc<Presence> = Arc::new(Presence { tag: Ghost(0int) });
    let receiver_token: Arc<Presence> = Arc::new(Presence { tag: Ghost(1int) });
    let watch_on_sender = watch(&sender_token);
    let watch_on_receiver = watch(&receiver_token);
    let sender = Sender { cell: share(&cell), here: sender_token, peer: watch_on_receiver };
    let receiver = Receiver { cell, here: receiver_token, peer: watch_on_sender };
    (sender, receiver)
}

} // verus!
