//! The shared machinery under both channel variants: the lock-guarded cell
//! and the liveness tokens through which each half notices that the other
//! half is gone.
//!
//! A channel's storage sits in a `std::sync::Mutex` shared through `Arc` by
//! every handle. The mutex and its guard are outside what the verifier
//! reads, so they are declared opaque here; `lock`/`try_lock` hand out the
//! guard, and each channel variant swaps its storage out through the guard,
//! runs its verified logic on it while the lock is held, and swaps it back.
//! Liveness uses reference counts: every live handle of one side holds a
//! strong `Arc<Presence>`, and the opposite side keeps a `PeerWatch` (a
//! weak handle) on that token. Once the last strong holder is dropped the
//! watch reports the peer as gone, and from then on it can never report
//! otherwise.

use std::sync::Arc;
use std::sync::Mutex;
use std::sync::MutexGuard;
use std::sync::Weak;

use vstd::prelude::*;

verus! {

/// Declares `std::sync::Mutex` so that it can stand in fields and
/// signatures. Its contents stay opaque: they are reached only by swapping
/// values through a held `MutexGuard`, so whatever logic reads or rewrites
/// them runs as verified code while the lock is held.
#[verifier::external_type_specification]
#[verifier::external_body]
#[verifier::reject_recursive_types(T)]
pub struct ExMutex<T: ?Sized>(Mutex<T>);

/// Declares `std::sync::MutexGuard`: a held lock. The guarded contents
/// stay opaque behind it; each channel variant has one trusted swap through
/// the guard, and everything else it does under the lock is verified.
#[verifier::external_type_specification]
#[verifier::external_body]
#[verifier::reject_recursive_types(T)]
pub struct ExMutexGuard<'a, T: ?Sized + 'a>(MutexGuard<'a, T>);

/// A guarded cell was found broken: a previous holder failed while holding
/// the lock, which both halves treat as the channel being closed.
#[derive(Clone, Copy, PartialEq, Eq, Debug)]
pub struct GuardBroken;

/// Why a non-blocking attempt could not enter a guarded cell.
#[derive(Clone, Copy, PartialEq, Eq, Debug)]
pub enum GuardDenied {
    /// A previous holder failed while holding the lock.
    Broken,
    /// Another handle holds the lock right now; retry later.
    Busy,
}

/// A token held (via `Arc`) by every live handle of one side of a channel.
/// The other side watches it to learn whether any holder is left. The ghost
/// tag tells the two tokens of one channel apart in contracts, so a factory
/// can state that each handle watches the other side's token, not its own.
pub struct Presence {
    pub tag: Ghost<int>,
}

/// Watches a `Presence` token without keeping it alive. The verifier cannot
/// declare `std::sync::Weak` (its allocator parameter cannot be named here),
/// so the weak handle is hidden in this struct and reached only through the
/// trusted functions below.
#[verifier::external_body]
pub struct PeerWatch {
    link: Weak<Presence>,
}

/// The token a watch observes. A weak handle determines its target for its
/// whole life, so the target is a function of the watch value alone.
pub uninterp spec fn watched_of(w: PeerWatch) -> Presence;

/// Relies on `std::sync::Mutex::new` to build a fresh, healthy guarded cell
/// around the given storage.
#[verifier::external_body]
pub(crate) fn guard_new<T>(storage: T) -> Mutex<T> {
    Mutex::new(storage)
}

/// Relies on `std::sync::Mutex::lock`: blocks only while another handle
/// holds the lock, then hands out the guard; a broken (poisoned) lock — a
/// previous holder failed while holding it — is reported instead of a
/// guard, and never panics.
#[verifier::external_body]
pub(crate) fn lock<'a, T>(cell: &'a Arc<Mutex<T>>) -> Result<MutexGuard<'a, T>, GuardBroken> {
    match cell.lock() {
        Ok(guard) => Ok(guard),
        Err(_) => Err(GuardBroken),
    }
}

/// Relies on `std::sync::Mutex::try_lock`: never blocks; a held lock is
/// reported as busy and a broken one as broken, never a panic.
#[verifier::external_body]
pub(crate) fn try_lock<'a, T>(cell: &'a Arc<Mutex<T>>) -> Result<MutexGuard<'a, T>, GuardDenied> {
    match cell.try_lock() {
        Ok(guard) => Ok(guard),
        Err(std::sync::TryLockError::Poisoned(_)) => Err(GuardDenied::Broken),
        Err(std::sync::TryLockError::WouldBlock) => Err(GuardDenied::Busy),
    }
}

/// Relies on dropping a `std::sync::MutexGuard` releasing the lock.
#[verifier::external_body]
pub(crate) fn unlock<T>(held: MutexGuard<'_, T>) {
    drop(held);
}

/// Relies on `std::sync::Arc::downgrade`: the watch observes exactly the
/// given token and does not keep it alive.
#[verifier::external_body]
pub(crate) fn watch(token: &Arc<Presence>) -> (w: PeerWatch)
    ensures
        watched_of(w) == **token,
{
    PeerWatch { link: Arc::downgrade(token) }
}

/// Relies on `std::sync::Weak::upgrade`: reports whether some strong holder
/// of the watched token is alive at the moment of the call. Other threads
/// may drop holders concurrently, so nothing more can be promised of the
/// answer; once the last holder is gone the answer stays `false`.
#[verifier::external_body]
pub(crate) fn watch_alive(w: &PeerWatch) -> bool {
    w.link.upgrade().is_some()
}

/// Relies on `std::sync::Weak::clone`: the copy watches the same token.
#[verifier::external_body]
pub(crate) fn watch_clone(w: &PeerWatch) -> (r: PeerWatch)
    ensures
        watched_of(r) == watched_of(*w),
{
    PeerWatch { link: w.link.clone() }
}

/// Relies on `std::sync::Arc::clone`: the copy is a handle to the same
/// value, so as a value it equals the original.
#[verifier::external_body]
pub(crate) fn share<T>(a: &Arc<T>) -> (r: Arc<T>)
    ensures
        r == *a,
{
    Arc::clone(a)
}

} // verus!
