//! The keyed latest-value channel: one overwritable value per key.
//!
//! The guarded storage is a [`Table`]: the pending updates, at most one per
//! key. A send overwrites the pending value for its key and leaves every
//! other key untouched; a receive drains the whole table as one batch, a
//! consistent snapshot across keys. The table is modelled by the map from
//! each pending key to its latest value, and its operations are verified
//! against that model; each channel operation swaps the table out through
//! the held lock guard, runs the verified operation, and swaps it back.
//! The lock and the liveness watch are the same trusted machinery as in
//! the scalar variant.

use std::sync::Arc;
use std::sync::Mutex;
use std::sync::MutexGuard;

use crate::sync::lock;
use crate::sync::share;
use crate::sync::try_lock;
use crate::sync::unlock;
use crate::sync::watch;
use crate::sync::watch_alive;
use crate::sync::watch_clone;
use crate::sync::watched_of;
use crate::sync::GuardDenied;
use crate::sync::PeerWatch;
use crate::sync::Presence;

use vstd::laws_eq::obeys_concrete_eq;
use vstd::prelude::*;

verus! {

/// Fold a pending-entry sequence into the map it stands for; a later entry
/// for a key overrides an earlier one.
pub open spec fn pairs_to_map<K, V>(s: Seq<(K, V)>) -> Map<K, V>
    decreases s.len(),
{
    if s.len() == 0 {
        Map::empty()
    } else {
        pairs_to_map(s.drop_last()).insert(s.last().0, s.last().1)
    }
}

/// No two entries carry the same key.
pub open spec fn distinct_keys<K, V>(s: Seq<(K, V)>) -> bool {
    forall|i: int, j: int| 0 <= i < j < s.len() ==> s[i].0 != s[j].0
}

/// The guarded storage of a keyed channel: every pending update, at most
/// one per key. `pending()` is its model: the map from each key with an
/// unread update to that key's latest value.
pub struct Table<K, V> {
    entries: Vec<(K, V)>,
}

impl<K, V> Table<K, V> {
    /// The pending entries in store order.
    pub closed spec fn contents(&self) -> Seq<(K, V)> {
        self.entries@
    }

    /// The pending updates as a map: each key to its latest unread value.
    pub open spec fn pending(&self) -> Map<K, V> {
        pairs_to_map(self.contents())
    }

    /// Each key appears in at most one entry.
    pub open spec fn wf(&self) -> bool {
        distinct_keys(self.contents())
    }

    /// A table with nothing pending.
    pub fn new() -> (t: Self)
        ensures
            t.wf(),
            t.contents() == Seq::<(K, V)>::empty(),
            t.pending() == Map::<K, V>::empty(),
    {
        Table { entries: Vec::new() }
    }
}

/// Replacing the one entry that holds `key` updates the model at `key`
/// alone, exactly as inserting over it would.
proof fn lemma_update_same_key<K, V>(s: Seq<(K, V)>, i: int, key: K, value: V)
    requires
        distinct_keys(s),
        0 <= i < s.len(),
        s[i].0 == key,
    ensures
        distinct_keys(s.update(i, (key, value))),
        pairs_to_map(s.update(i, (key, value))) == pairs_to_map(s).insert(key, value),
    decreases s.len(),
{
    let t = s.update(i, (key, value));
    assert forall|a: int, b: int| 0 <= a < b < t.len() implies t[a].0 != t[b].0 by {
        assert(s[a].0 != s[b].0);
    }
    if i == s.len() - 1 {
        assert(t.drop_last() =~= s.drop_last());
        assert(pairs_to_map(s.drop_last()).insert(key, s[i].1).insert(key, value) =~= pairs_to_map(
            s.drop_last(),
        ).insert(key, value));
    } else {
        assert(t.drop_last() =~= s.drop_last().update(i, (key, value)));
        assert(t.last() == s.last());
        assert(forall|a: int, b: int|
            0 <= a < b < s.drop_last().len() ==> s.drop_last()[a].0 != s.drop_last()[b].0);
        lemma_update_same_key(s.drop_last(), i, key, value);
        assert(s.last().0 != key);
        assert(pairs_to_map(s.drop_last()).insert(key, value).insert(s.last().0, s.last().1)
            =~= pairs_to_map(s.drop_last()).insert(s.last().0, s.last().1).insert(key, value));
    }
}

/// Appending an entry inserts its pair into the model.
proof fn lemma_push_pair<K, V>(s: Seq<(K, V)>, key: K, value: V)
    ensures
        pairs_to_map(s.push((key, value))) == pairs_to_map(s).insert(key, value),
{
    assert(s.push((key, value)).drop_last() =~= s);
}

impl<K: Eq, V> Table<K, V> {
    /// Store the latest value for `key`: any pending value for that key is
    /// overwritten, every other key is untouched. Last write wins, per key.
    ///
    /// `obeys_concrete_eq` asks that the key type's `==` agree with logical
    /// equality; `vstd::laws_eq` discharges it for integers, `bool` and
    /// tuples of them. For other key types (such as `String`) the caller
    /// supplies it as a hypothesis: the runtime behaviour is the same, only
    /// the caller's own proofs rest on that assumption.
    pub fn put(&mut self, key: K, value: V)
        requires
            old(self).wf(),
            obeys_concrete_eq::<K>(),
        ensures
            final(self).wf(),
            final(self).pending() == old(self).pending().insert(key, value),
    {
        let end = self.entries.len();
        let mut i: usize = 0;
        while i < end
            invariant
                i <= end,
                end == self.entries.len(),
                *self == *old(self),
                obeys_concrete_eq::<K>(),
                old(self).wf(),
                forall|j: int| 0 <= j < i ==> self.entries@[j].0 != key,
            decreases end - i,
        {
            proof {
                reveal(obeys_concrete_eq);
            }
            if self.entries[i].0.eq(&key) {
                self.entries[i] = (key, value);
                proof {
                    lemma_update_same_key(old(self).contents(), i as int, key, value);
                }
                return;
            }
            i += 1;
        }
        self.entries.push((key, value));
        proof {
            lemma_push_pair(old(self).contents(), key, value);
            assert forall|a: int, b: int|
                0 <= a < b < self.contents().len() implies self.contents()[a].0
                != self.contents()[b].0 by {
                if b < self.contents().len() - 1 {
                    assert(old(self).contents()[a].0 != old(self).contents()[b].0);
                }
            }
        }
    }

    /// Take every pending entry, leaving the table drained. The batch is a
    /// consistent snapshot: all pending pairs at once, each key at most
    /// once, and nothing remains pending afterwards.
    pub fn drain(&mut self) -> (batch: Vec<(K, V)>)
        ensures
            batch@ == old(self).contents(),
            final(self).contents() == Seq::<(K, V)>::empty(),
            final(self).pending() == Map::<K, V>::empty(),
            final(self).wf(),
            old(self).wf() ==> distinct_keys(batch@),
    {
        let mut out: Vec<(K, V)> = Vec::new();
        core::mem::swap(&mut out, &mut self.entries);
        out
    }
}

/// A well-formed entry sequence and the map it folds to hold exactly the
/// same pairs: a drained batch lists the pending updates, each exactly
/// once.
pub proof fn lemma_batch_matches_pending<K, V>(s: Seq<(K, V)>)
    requires
        distinct_keys(s),
    ensures
        forall|p: (K, V)| #[trigger] s.contains(p) <==> pairs_to_map(s).contains_pair(p.0, p.1),
        forall|i: int, j: int| 0 <= i < j < s.len() ==> s[i] != s[j],
    decreases s.len(),
{
    if s.len() == 0 {
    } else {
        let dl = s.drop_last();
        let last = s.last();
        assert(forall|a: int, b: int| 0 <= a < b < dl.len() ==> dl[a].0 != dl[b].0);
        lemma_batch_matches_pending(dl);
        assert forall|p: (K, V)| #[trigger] s.contains(p) implies pairs_to_map(s).contains_pair(
            p.0,
            p.1,
        ) by {
            let i = choose|i: int| 0 <= i < s.len() && s[i] == p;
            if i == s.len() - 1 {
            } else {
                assert(dl[i] == p);
                assert(dl.contains(p));
                assert(p.0 != last.0);
            }
        }
        assert forall|p: (K, V)| pairs_to_map(s).contains_pair(p.0, p.1) implies s.contains(p) by {
            if p.0 == last.0 {
                assert(s[s.len() - 1] == p);
            } else {
                assert(pairs_to_map(dl).contains_pair(p.0, p.1));
                assert(dl.contains(p));
                let i = choose|i: int| 0 <= i < dl.len() && dl[i] == p;
                assert(s[i] == p);
            }
        }
    }
}

/// Per-key independence: updates to two distinct keys never disturb each
/// other; after both, each key is pending with its own latest value.
pub proof fn lemma_key_independence<K, V>(pending: Map<K, V>, k1: K, v1: V, k2: K, v2: V)
    requires
        k1 != k2,
    ensures
        pending.insert(k1, v1).insert(k2, v2).contains_pair(k1, v1),
        pending.insert(k1, v1).insert(k2, v2).contains_pair(k2, v2),
{
}

/// Last write wins, per key: a second update to the same key before a
/// drain replaces the first entirely, as if the first never happened.
pub proof fn lemma_last_write_wins<K, V>(pending: Map<K, V>, k: K, v1: V, v2: V)
    ensures
        pending.insert(k, v1).insert(k, v2) == pending.insert(k, v2),
{
    assert(pending.insert(k, v1).insert(k, v2) =~= pending.insert(k, v2));
}

/// Idempotent drain: a drain leaves the contents empty, so a drain right
/// after a drain hands out an empty batch and nothing is pending.
pub proof fn lemma_drain_idempotent<K, V>(t: Table<K, V>)
    requires
        t.contents() == Seq::<(K, V)>::empty(),
    ensures
        t.pending() == Map::<K, V>::empty(),
{
}

/// The receiver is gone (or the lock is broken): the channel is closed and
/// the undelivered pair comes back to the caller.
#[derive(PartialEq, Eq, Debug)]
pub struct SendError<K, V>(pub K, pub V);

/// Why a non-blocking send did not deliver; each variant hands the
/// undelivered pair back.
#[derive(PartialEq, Eq, Debug)]
pub enum TrySendError<K, V> {
    /// The receiver is gone (or the lock is broken): the channel is closed.
    ChannelClosed(K, V),
    /// The lock is currently held elsewhere; retry later.
    WouldBlock(K, V),
}

/// Every sender is gone (or the lock is broken): the channel is closed.
#[derive(PartialEq, Eq, Debug)]
pub struct RecvError;

/// Why a non-blocking receive yielded no batch.
#[derive(PartialEq, Eq, Debug)]
pub enum TryRecvError {
    /// Every sender is gone (or the lock is broken): the channel is closed.
    ChannelClosed,
    /// The lock is currently held elsewhere; retry later.
    WouldBlock,
}

/// The sending half of a keyed channel. Cloneable: all clones write into
/// the same table.
#[verifier::reject_recursive_types(K)]
#[verifier::reject_recursive_types(V)]
pub struct Sender<K: Send, V: Send> {
    cell: Arc<Mutex<Table<K, V>>>,
    #[allow(dead_code)]
    here: Arc<Presence>,
    peer: PeerWatch,
}

/// The receiving half of a keyed channel: drains the shared table. Not
/// cloneable: the design assumes a single consumer.
#[verifier::reject_recursive_types(K)]
#[verifier::reject_recursive_types(V)]
pub struct Receiver<K: Send, V: Send> {
    cell: Arc<Mutex<Table<K, V>>>,
    #[allow(dead_code)]
    here: Arc<Presence>,
    peer: PeerWatch,
}

/// Both handles of one channel share the same guarded cell.
pub closed spec fn linked<K: Send, V: Send>(s: &Sender<K, V>, r: &Receiver<K, V>) -> bool {
    s.cell == r.cell
}

/// The factory's wiring: each handle watches the other side's token, never
/// its own, so only a truly vanished peer ever reads as gone.
pub closed spec fn cross_watched<K: Send, V: Send>(s: &Sender<K, V>, r: &Receiver<K, V>) -> bool {
    &&& watched_of(s.peer) == *r.here
    &&& watched_of(r.peer) == *s.here
    &&& *s.here != *r.here
}

/// Two senders feed the same channel: same cell, same liveness token, same
/// watched peer.
pub closed spec fn same_channel<K: Send, V: Send>(a: &Sender<K, V>, b: &Sender<K, V>) -> bool {
    &&& a.cell == b.cell
    &&& *a.here == *b.here
    &&& watched_of(a.peer) == watched_of(b.peer)
}

/// A cloned sender still feeds every receiver the original fed, wired the
/// same way.
pub proof fn lemma_clone_linked<K: Send, V: Send>(
    a: &Sender<K, V>,
    b: &Sender<K, V>,
    r: &Receiver<K, V>,
)
    requires
        same_channel(a, b),
        linked(a, r),
        cross_watched(a, r),
    ensures
        linked(b, r),
        cross_watched(b, r),
{
}

/// Relies on `std::sync::Mutex::new`. Together with `swap_table` this pins
/// the cell's invariant: nothing enters a keyed cell without being well
/// formed, so whatever comes out of one is well formed.
#[verifier::external_body]
fn table_cell_new<K: Send, V: Send>(table: Table<K, V>) -> Mutex<Table<K, V>>
    requires
        table.wf(),
{
    Mutex::new(table)
}

/// Relies on `core::mem::replace` through the held guard: hands out the
/// table the cell held and leaves the given one in its place. Which entries
/// come out depends on the sends that other threads completed before the
/// lock was acquired; but every table ever placed in a cell was well formed
/// (`table_cell_new` and this function require it), so the one handed out
/// is too. Everything done with either table happens in verified code while
/// the guard is held.
#[verifier::external_body]
fn swap_table<'a, K: Send, V: Send>(
    held: &mut MutexGuard<'a, Table<K, V>>,
    table: Table<K, V>,
) -> (r: Table<K, V>)
    requires
        table.wf(),
    ensures
        r.wf(),
{
    core::mem::replace(&mut **held, table)
}

/// What a non-blocking keyed send reports for each lock outcome; the
/// undelivered pair rides along in every failure.
pub fn settle_try_send<K: Send, V: Send>(outcome: Result<(), (GuardDenied, K, V)>) -> (r: Result<
    (),
    TrySendError<K, V>,
>)
    ensures
        outcome is Ok ==> r is Ok,
        outcome matches Err((GuardDenied::Broken, k, v)) ==> r == Result::<
            (),
            TrySendError<K, V>,
        >::Err(TrySendError::ChannelClosed(k, v)),
        outcome matches Err((GuardDenied::Busy, k, v)) ==> r == Result::<
            (),
            TrySendError<K, V>,
        >::Err(TrySendError::WouldBlock(k, v)),
{
    match outcome {
        Ok(()) => Ok(()),
        Err((GuardDenied::Broken, k, v)) => Err(TrySendError::ChannelClosed(k, v)),
        Err((GuardDenied::Busy, k, v)) => Err(TrySendError::WouldBlock(k, v)),
    }
}

/// What a non-blocking keyed receive reports for each drain outcome: a
/// batch passes through unchanged, a busy lock reports `WouldBlock`, a
/// broken lock reports a closed channel.
pub fn settle_try_recv<K: Send, V: Send>(outcome: Result<Vec<(K, V)>, GuardDenied>) -> (r: Result<
    Vec<(K, V)>,
    TryRecvError,
>)
    ensures
        r is Ok <==> outcome is Ok,
        outcome matches Ok(batch) ==> r == Result::<Vec<(K, V)>, TryRecvError>::Ok(batch),
        outcome == Result::<Vec<(K, V)>, GuardDenied>::Err(GuardDenied::Broken) ==> r == Result::<
            Vec<(K, V)>,
            TryRecvError,
        >::Err(TryRecvError::ChannelClosed),
        outcome == Result::<Vec<(K, V)>, GuardDenied>::Err(GuardDenied::Busy) ==> r == Result::<
            Vec<(K, V)>,
            TryRecvError,
        >::Err(TryRecvError::WouldBlock),
{
    match outcome {
        Ok(batch) => Ok(batch),
        Err(GuardDenied::Broken) => Err(TryRecvError::ChannelClosed),
        Err(GuardDenied::Busy) => Err(TryRecvError::WouldBlock),
    }
}

impl<K: Send + Eq, V: Send> Sender<K, V> {
    /// Store the latest value for `key`, overwriting any unread value for
    /// that key and leaving every other key untouched. Blocks only while
    /// the lock is contended. A failed send (receiver gone, or the lock
    /// broken) hands the pair back: it is never silently lost.
    ///
    /// On `obeys_concrete_eq` and which key types discharge it, see
    /// [`Table::put`].
    pub fn send(&self, key: K, value: V) -> (r: Result<(), SendError<K, V>>)
        requires
            obeys_concrete_eq::<K>(),
        ensures
            r matches Err(e) ==> e == (SendError(key, value)),
    {
        if !watch_alive(&self.peer) {
            return Err(SendError(key, value));
        }
        match lock(&self.cell) {
            Ok(mut held) => {
                let mut table = swap_table(&mut held, Table::new());
                table.put(key, value);
                let _placeholder = swap_table(&mut held, table);
                unlock(held);
                Ok(())
            },
            Err(_) => Err(SendError(key, value)),
        }
    }

    /// Try to store the latest value for `key` without ever blocking: a
    /// contended lock reports `WouldBlock`, a vanished receiver or broken
    /// lock reports `ChannelClosed`; either failure hands the pair back.
    pub fn try_send(&self, key: K, value: V) -> (r: Result<(), TrySendError<K, V>>)
        requires
            obeys_concrete_eq::<K>(),
        ensures
            r matches Err(TrySendError::ChannelClosed(k, v)) ==> (k, v) == (key, value),
            r matches Err(TrySendError::WouldBlock(k, v)) ==> (k, v) == (key, value),
    {
        if !watch_alive(&self.peer) {
            return Err(TrySendError::ChannelClosed(key, value));
        }
        match try_lock(&self.cell) {
            Ok(mut held) => {
                let mut table = swap_table(&mut held, Table::new());
                table.put(key, value);
                let _placeholder = swap_table(&mut held, table);
                unlock(held);
                Ok(())
            },
            Err(denied) => settle_try_send(Err((denied, key, value))),
        }
    }
}

impl<K: Send, V: Send> Clone for Sender<K, V> {
    /// The clone feeds the same channel as the original; cloning never
    /// touches the lock and never fails.
    fn clone(&self) -> (r: Self)
        ensures
            same_channel(self, &r),
    {
        Sender {
            cell: share(&self.cell),
            here: share(&self.here),
            peer: watch_clone(&self.peer),
        }
    }
}

impl<K: Send + Eq, V: Send> Receiver<K, V> {
    /// Take the whole pending batch: every key with an unread update, each
    /// paired with its latest value, drained atomically. An empty batch
    /// means nothing was pending. With every sender gone or the lock broken
    /// the channel is closed. Blocks only while the lock is contended.
    pub fn recv(&self) -> (r: Result<Vec<(K, V)>, RecvError>)
        ensures
            r matches Ok(batch) ==> distinct_keys(batch@),
    {
        if !watch_alive(&self.peer) {
            return Err(RecvError);
        }
        match lock(&self.cell) {
            Ok(mut held) => {
                let mut table = swap_table(&mut held, Table::new());
                let batch = table.drain();
                let _placeholder = swap_table(&mut held, table);
                unlock(held);
                Ok(batch)
            },
            Err(_) => Err(RecvError),
        }
    }

    /// As `recv`, but never blocks: a contended lock reports `WouldBlock`.
    pub fn try_recv(&self) -> (r: Result<Vec<(K, V)>, TryRecvError>)
        ensures
            r matches Ok(batch) ==> distinct_keys(batch@),
    {
        if !watch_alive(&self.peer) {
            return Err(TryRecvError::ChannelClosed);
        }
        match try_lock(&self.cell) {
            Ok(mut held) => {
                let mut table = swap_table(&mut held, Table::new());
                let batch = table.drain();
                let _placeholder = swap_table(&mut held, table);
                unlock(held);
                Ok(batch)
            },
            Err(denied) => settle_try_recv(Err(denied)),
        }
    }
}

/// Build a connected keyed channel: a cloneable sender and the single
/// receiver, sharing one guarded table with nothing pending.
pub fn channel<K: Send + Eq, V: Send>() -> (pair: (Sender<K, V>, Receiver<K, V>))
    ensures
        linked(&pair.0, &pair.1),
        cross_watched(&pair.0, &pair.1),
{
    let cell: Arc<Mutex<Table<K, V>>> = Arc::new(table_cell_new(Table::new()));
    let sender_token: Arc<Presence> = Arc::new(Presence { tag: Ghost(0int) });
    let receiver_token: Arc<Presence> = Arc::new(Presence { tag: Ghost(1int) });
    let watch_on_sender = watch(&sender_token);
    let watch_on_receiver = watch(&receiver_token);
    let sender = Sender { cell: share(&cell), here: sender_token, peer: watch_on_receiver };
    let receiver = Receiver { cell, here: receiver_token, peer: watch_on_sender };
    (sender, receiver)
}

} // verus!
