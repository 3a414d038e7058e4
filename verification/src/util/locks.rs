//! The per-user report lock: at most one report is being filed for a user
//! at any time, and nothing is remembered of users nobody files a report
//! for.
//!
//! The registry hands out numbered tickets. The first caller for a user
//! acquires the lock at once; later callers queue behind it and are handed
//! the lock one by one, in the order they came, as holders let go. A caller
//! that gives up waiting leaves the queue. When the last holder lets go and
//! nobody queues, the user's entry dies, and the holder's clean-up removes
//! it unless a newer entry has taken its place.

use crate::util::discord::UserId;
use dashmap::DashMap;
use vstd::prelude::*;

verus! {

/// The concurrent map of the `dashmap` crate.
#[verifier::external_type_specification]
#[verifier::external_body]
#[verifier::reject_recursive_types(K)]
#[verifier::reject_recursive_types(V)]
#[verifier::reject_recursive_types(S)]
pub struct ExDashMap<K, V, S>(DashMap<K, V, S>);

/// What the registry remembers of a user whose lock is in use.
#[derive(Clone, Copy, Debug, PartialEq, Eq, Structural)]
pub struct LockValue {
    /// The generation of the entry: the ticket of the caller that made it.
    pub id: u64,
    /// The ticket that holds the lock.
    pub holder: u64,
    /// Whether the lock is held. An entry whose lock is not held is dead
    /// and only waits to be removed.
    pub held: bool,
}

impl LockValue {
    /// Whether the entry is of generation `id` and dead.
    pub fn is_dead_generation(&self, id: u64) -> (dead: bool)
        ensures
            dead == (self.id == id && !self.held),
    {
        self.id == id && !self.held
    }
}

/// A caller that queues for a user's lock.
#[derive(Clone, Copy, Debug, PartialEq, Eq, Structural)]
pub struct Waiter {
    pub user_id: UserId,
    pub ticket: u64,
}

/// The token of a caller: what it holds while it has the lock or queues
/// for it, and hands back when it lets go.
#[derive(Clone, Copy, Debug, PartialEq, Eq, Structural)]
pub struct SelfRemoving {
    /// The generation of the entry the token belongs to.
    pub id: u64,
    pub user_id: UserId,
    /// The caller's own number.
    pub ticket: u64,
}

/// What asking for a user's lock gives.
#[derive(Clone, Copy, Debug, PartialEq, Eq, Structural)]
pub enum LockOutcome {
    /// The caller holds the lock.
    Acquired(SelfRemoving),
    /// Someone else holds the lock; the caller queues and will be handed it.
    Queued(SelfRemoving),
}

/// Why the registry cannot serve a caller.
#[derive(Clone, Copy, Debug, PartialEq, Eq, Structural)]
pub enum LockError {
    /// Every ticket number has been given out.
    Exhausted,
}

/// What letting go of a lock did.
#[derive(Clone, Copy, Debug, PartialEq, Eq, Structural)]
pub enum Released {
    /// The token does not hold the lock; nothing changed.
    Stale,
    /// The lock went to the queued caller with this ticket.
    HandedOver(u64),
    /// Nobody queued: the lock is free and the entry is dead.
    Dropped,
    /// The token queued for the lock and has left the queue; the lock will
    /// never be handed to it.
    Withdrawn,
}

/// The entries that a map holds.
pub uninterp spec fn lock_entries(map: DashMap<u64, LockValue>) -> Map<u64, LockValue>;

/// An empty map.
///
/// Trusted: calls `DashMap::new`, which makes a map without entries: no
/// key is in it.
#[verifier::external_body]
fn map_new() -> (created: DashMap<u64, LockValue>)
    ensures
        lock_entries(created).dom() == Set::<u64>::empty(),
{
    DashMap::new()
}

/// The value stored under a key.
///
/// Trusted: calls `DashMap::get` and copies the value out of the reference
/// it returns; the map is not changed.
#[verifier::external_body]
fn map_get(map: &DashMap<u64, LockValue>, key: u64) -> (value: Option<LockValue>)
    ensures
        value == (if lock_entries(*map).contains_key(key) {
            Some(lock_entries(*map)[key])
        } else {
            None
        }),
{
    map.get(&key).map(|entry| *entry.value())
}

/// Stores a value under a key.
///
/// Trusted: calls `DashMap::insert`, which stores the value under the key,
/// keeps every other entry, and returns the value that was stored there
/// before, if any.
#[verifier::external_body]
fn map_insert(map: &mut DashMap<u64, LockValue>, key: u64, value: LockValue) -> (previous: Option<
    LockValue,
>)
    ensures
        lock_entries(*final(map)) == lock_entries(*old(map)).insert(key, value),
        previous == (if lock_entries(*old(map)).contains_key(key) {
            Some(lock_entries(*old(map))[key])
        } else {
            None
        }),
{
    map.insert(key, value)
}

/// Removes the entry under a key if it is of the given generation and dead.
///
/// Trusted: calls `DashMap::remove_if` with the test
/// `LockValue::is_dead_generation`. The entry is removed if it exists and
/// the test holds of its value; nothing else changes; the result says
/// whether it was removed.
#[verifier::external_body]
fn map_remove_if(map: &mut DashMap<u64, LockValue>, key: u64, id: u64) -> (removed: bool)
    ensures
        removed == (lock_entries(*old(map)).contains_key(key) && lock_entries(*old(map))[key].id
            == id && !lock_entries(*old(map))[key].held),
        lock_entries(*final(map)) == (if removed {
            lock_entries(*old(map)).remove(key)
        } else {
            lock_entries(*old(map))
        }),
{
    map.remove_if(&key, |_, value| value.is_dead_generation(id)).is_some()
}

/// The state of the registry.
pub struct LockState {
    /// The users whose lock is in use (or dead and not yet removed).
    pub entries: Map<UserId, LockValue>,
    /// The callers that queue, in the order they came.
    pub waiting: Seq<Waiter>,
    /// The number of the next ticket.
    pub next_ticket: u64,
}

/// Whether a user's lock is held.
pub open spec fn is_locked(s: LockState, user_id: UserId) -> bool {
    s.entries.contains_key(user_id) && s.entries[user_id].held
}

/// Whether ticket `ticket` holds the lock of `user_id`.
pub open spec fn holds(s: LockState, user_id: UserId, ticket: u64) -> bool {
    is_locked(s, user_id) && s.entries[user_id].holder == ticket
}

/// Whether ticket `ticket` queues for the lock of `user_id`.
pub open spec fn queues(s: LockState, user_id: UserId, ticket: u64) -> bool {
    s.waiting.contains(Waiter { user_id, ticket })
}

/// Index of the first caller that queues for `user_id`, or the length of
/// the queue if there is none.
pub open spec fn first_waiter(waiting: Seq<Waiter>, user_id: UserId) -> int
    decreases waiting.len(),
{
    if waiting.len() == 0 || waiting[0].user_id == user_id {
        0
    } else {
        1 + first_waiter(waiting.drop_first(), user_id)
    }
}

/// Index of the first occurrence of `waiter` in the queue, or the length
/// of the queue if it does not queue.
pub open spec fn waiter_index(waiting: Seq<Waiter>, waiter: Waiter) -> int
    decreases waiting.len(),
{
    if waiting.len() == 0 || waiting[0] == waiter {
        0
    } else {
        1 + waiter_index(waiting.drop_first(), waiter)
    }
}

/// What holds of every state the registry can be in: whoever queues, queues
/// for a lock that is held; every ticket in use was given out before; and
/// no ticket is in use twice: the tickets in the queue differ from one
/// another and from the ticket of every holder.
pub open spec fn state_wf(s: LockState) -> bool {
    &&& forall|i: int| 0 <= i < s.waiting.len() ==> is_locked(s, (#[trigger] s.waiting[i]).user_id)
    &&& forall|i: int| 0 <= i < s.waiting.len() ==> (#[trigger] s.waiting[i]).ticket < s.next_ticket
    &&& forall|u: UserId| #[trigger]
        s.entries.contains_key(u) ==> s.entries[u].id < s.next_ticket && s.entries[u].holder
            < s.next_ticket
    &&& forall|i: int, j: int|
        0 <= i < j < s.waiting.len() ==> (#[trigger] s.waiting[i]).ticket != (
        #[trigger] s.waiting[j]).ticket
    &&& forall|u: UserId, i: int|
        #[trigger] s.entries.contains_key(u) && 0 <= i < s.waiting.len() ==> s.entries[u].holder != (
        #[trigger] s.waiting[i]).ticket
}

/// Asking for the lock of `user_id`: the caller gets the next ticket. If
/// the lock is held, the caller queues; if not, a fresh entry is made (over
/// a dead one, if one is still there) and the caller holds the lock.
pub open spec fn lock_step(s: LockState, user_id: UserId) -> (LockState, Result<
    LockOutcome,
    LockError,
>) {
    if s.next_ticket == u64::MAX {
        (s, Err(LockError::Exhausted))
    } else {
        let ticket = s.next_ticket;
        let next_ticket = (ticket + 1) as u64;
        if is_locked(s, user_id) {
            (
                LockState {
                    entries: s.entries,
                    waiting: s.waiting.push(Waiter { user_id, ticket }),
                    next_ticket,
                },
                Ok(
                    LockOutcome::Queued(
                        SelfRemoving { id: s.entries[user_id].id, user_id, ticket },
                    ),
                ),
            )
        } else {
            (
                LockState {
                    entries: s.entries.insert(
                        user_id,
                        LockValue { id: ticket, holder: ticket, held: true },
                    ),
                    waiting: s.waiting,
                    next_ticket,
                },
                Ok(LockOutcome::Acquired(SelfRemoving { id: ticket, user_id, ticket })),
            )
        }
    }
}

/// Whether a token is the one that holds its user's lock.
pub open spec fn is_holder(s: LockState, guard: SelfRemoving) -> bool {
    holds(s, guard.user_id, guard.ticket) && s.entries[guard.user_id].id == guard.id
}

/// The place in the queue that a token stands for.
pub open spec fn waiter_of(guard: SelfRemoving) -> Waiter {
    Waiter { user_id: guard.user_id, ticket: guard.ticket }
}

/// Letting go: if the token holds its user's lock, the lock goes to the
/// first caller that queues for the user, or, if there is none, the entry
/// dies. If the token queues, it leaves the queue. Any other token changes
/// nothing.
pub open spec fn release_step(s: LockState, guard: SelfRemoving) -> (LockState, Released) {
    if !is_holder(s, guard) {
        let k = waiter_index(s.waiting, waiter_of(guard));
        if 0 <= k < s.waiting.len() {
            (
                LockState {
                    entries: s.entries,
                    waiting: s.waiting.remove(k),
                    next_ticket: s.next_ticket,
                },
                Released::Withdrawn,
            )
        } else {
            (s, Released::Stale)
        }
    } else {
        let k = first_waiter(s.waiting, guard.user_id);
        let entry = s.entries[guard.user_id];
        if 0 <= k < s.waiting.len() {
            (
                LockState {
                    entries: s.entries.insert(
                        guard.user_id,
                        LockValue { id: entry.id, holder: s.waiting[k].ticket, held: true },
                    ),
                    waiting: s.waiting.remove(k),
                    next_ticket: s.next_ticket,
                },
                Released::HandedOver(s.waiting[k].ticket),
            )
        } else {
            (
                LockState {
                    entries: s.entries.insert(
                        guard.user_id,
                        LockValue { id: entry.id, holder: entry.holder, held: false },
                    ),
                    waiting: s.waiting,
                    next_ticket: s.next_ticket,
                },
                Released::Dropped,
            )
        }
    }
}

/// Cleaning up after a token: the user's entry is removed if it is still
/// of the token's generation and dead.
pub open spec fn cleanup_step(s: LockState, guard: SelfRemoving) -> LockState {
    if s.entries.contains_key(guard.user_id) && s.entries[guard.user_id].id == guard.id
        && !s.entries[guard.user_id].held {
        LockState {
            entries: s.entries.remove(guard.user_id),
            waiting: s.waiting,
            next_ticket: s.next_ticket,
        }
    } else {
        s
    }
}

/// Dropping a token: letting go, then cleaning up if the entry died.
pub open spec fn drop_step(s: LockState, guard: SelfRemoving) -> (LockState, Released) {
    let (after, released) = release_step(s, guard);
    if released == Released::Dropped {
        (cleanup_step(after, guard), released)
    } else {
        (after, released)
    }
}

/// An index before which nobody queues for the user and at which someone
/// does (or the queue ends) is the index of the user's first waiter.
pub proof fn lemma_first_waiter(waiting: Seq<Waiter>, user_id: UserId, k: int)
    requires
        0 <= k <= waiting.len(),
        forall|j: int| 0 <= j < k ==> (#[trigger] waiting[j]).user_id != user_id,
        k < waiting.len() ==> waiting[k].user_id == user_id,
    ensures
        first_waiter(waiting, user_id) == k,
    decreases waiting.len(),
{
    if k > 0 {
        assert(waiting[0].user_id != user_id);
        let rest = waiting.drop_first();
        assert forall|j: int| 0 <= j < k - 1 implies (#[trigger] rest[j]).user_id != user_id by {
            assert(rest[j] == waiting[j + 1]);
        }
        lemma_first_waiter(rest, user_id, k - 1);
    }
}

/// The first waiter of a user is a waiter of that user, and nobody before
/// it is.
pub proof fn lemma_first_waiter_is_first(waiting: Seq<Waiter>, user_id: UserId)
    ensures
        0 <= first_waiter(waiting, user_id) <= waiting.len(),
        first_waiter(waiting, user_id) < waiting.len() ==> waiting[first_waiter(
            waiting,
            user_id,
        )].user_id == user_id,
        forall|j: int|
            0 <= j < first_waiter(waiting, user_id) ==> (#[trigger] waiting[j]).user_id != user_id,
    decreases waiting.len(),
{
    if waiting.len() == 0 || waiting[0].user_id == user_id {
    } else {
        let rest = waiting.drop_first();
        lemma_first_waiter_is_first(rest, user_id);
        let k = first_waiter(rest, user_id);
        assert forall|j: int| 0 <= j < k + 1 implies (#[trigger] waiting[j]).user_id != user_id by {
            if j > 0 {
                assert(waiting[j] == rest[j - 1]);
            }
        }
        if k + 1 < waiting.len() {
            assert(waiting[k + 1] == rest[k]);
        }
    }
}

/// An index before which the waiter does not stand and at which it does (or
/// the queue ends) is the waiter's index.
pub proof fn lemma_waiter_index(waiting: Seq<Waiter>, waiter: Waiter, k: int)
    requires
        0 <= k <= waiting.len(),
        forall|j: int| 0 <= j < k ==> #[trigger] waiting[j] != waiter,
        k < waiting.len() ==> waiting[k] == waiter,
    ensures
        waiter_index(waiting, waiter) == k,
    decreases waiting.len(),
{
    if k > 0 {
        assert(waiting[0] != waiter);
        let rest = waiting.drop_first();
        assert forall|j: int| 0 <= j < k - 1 implies #[trigger] rest[j] != waiter by {
            assert(rest[j] == waiting[j + 1]);
        }
        lemma_waiter_index(rest, waiter, k - 1);
    }
}

/// The index of a waiter is where the waiter stands first, if it queues.
pub proof fn lemma_waiter_index_is_first(waiting: Seq<Waiter>, waiter: Waiter)
    ensures
        0 <= waiter_index(waiting, waiter) <= waiting.len(),
        waiter_index(waiting, waiter) < waiting.len() ==> waiting[waiter_index(waiting, waiter)]
            == waiter,
        forall|j: int| 0 <= j < waiter_index(waiting, waiter) ==> #[trigger] waiting[j] != waiter,
    decreases waiting.len(),
{
    if waiting.len() == 0 || waiting[0] == waiter {
    } else {
        let rest = waiting.drop_first();
        lemma_waiter_index_is_first(rest, waiter);
        let k = waiter_index(rest, waiter);
        assert forall|j: int| 0 <= j < k + 1 implies #[trigger] waiting[j] != waiter by {
            if j > 0 {
                assert(waiting[j] == rest[j - 1]);
            }
        }
        if k + 1 < waiting.len() {
            assert(waiting[k + 1] == rest[k]);
        }
    }
}

/// Asking for a lock keeps the registry well formed.
pub proof fn lemma_lock_keeps_wf(s: LockState, user_id: UserId)
    requires
        state_wf(s),
    ensures
        state_wf(lock_step(s, user_id).0),
{
    let after = lock_step(s, user_id).0;
    if s.next_ticket != u64::MAX {
        assert forall|i: int| 0 <= i < after.waiting.len() implies is_locked(
            after,
            (#[trigger] after.waiting[i]).user_id,
        ) && after.waiting[i].ticket < after.next_ticket by {
            if i < s.waiting.len() {
                assert(after.waiting[i] == s.waiting[i]);
            }
        }
        assert forall|u: UserId| #[trigger] after.entries.contains_key(u) implies after.entries[u].id
            < after.next_ticket && after.entries[u].holder < after.next_ticket by {
            if u != user_id {
                assert(s.entries.contains_key(u));
            } else if is_locked(s, user_id) {
                assert(s.entries.contains_key(u));
            }
        }
        assert forall|i: int, j: int| 0 <= i < j < after.waiting.len() implies (
        #[trigger] after.waiting[i]).ticket != (#[trigger] after.waiting[j]).ticket by {
            assert(after.waiting[i] == s.waiting[i]);
            if j < s.waiting.len() {
                assert(after.waiting[j] == s.waiting[j]);
            }
        }
        assert forall|u: UserId, i: int| #[trigger]
            after.entries.contains_key(u) && 0 <= i < after.waiting.len() implies after.entries[u].holder
            != (#[trigger] after.waiting[i]).ticket by {
            if i < s.waiting.len() {
                assert(after.waiting[i] == s.waiting[i]);
            }
            if u != user_id || is_locked(s, user_id) {
                assert(s.entries.contains_key(u));
            }
        }
    }
}

/// Letting go keeps the registry well formed.
pub proof fn lemma_release_keeps_wf(s: LockState, guard: SelfRemoving)
    requires
        state_wf(s),
    ensures
        state_wf(release_step(s, guard).0),
{
    let after = release_step(s, guard).0;
    lemma_first_waiter_is_first(s.waiting, guard.user_id);
    lemma_waiter_index_is_first(s.waiting, waiter_of(guard));
    let k = if is_holder(s, guard) {
        first_waiter(s.waiting, guard.user_id)
    } else {
        waiter_index(s.waiting, waiter_of(guard))
    };
    if k < s.waiting.len() {
        // One caller leaves the queue: those before it keep their place,
        // those behind it move up.
        assert forall|i: int| 0 <= i < after.waiting.len() implies #[trigger] after.waiting[i] == (
        if i < k {
            s.waiting[i]
        } else {
            s.waiting[i + 1]
        }) by {}
        assert forall|i: int| 0 <= i < after.waiting.len() implies is_locked(
            after,
            (#[trigger] after.waiting[i]).user_id,
        ) && after.waiting[i].ticket < after.next_ticket by {
            if i < k {
                assert(is_locked(s, s.waiting[i].user_id));
            } else {
                assert(is_locked(s, s.waiting[i + 1].user_id));
            }
        }
        assert forall|i: int, j: int| 0 <= i < j < after.waiting.len() implies (
        #[trigger] after.waiting[i]).ticket != (#[trigger] after.waiting[j]).ticket by {
            let a = if i < k {
                i
            } else {
                i + 1
            };
            let b = if j < k {
                j
            } else {
                j + 1
            };
            assert(s.waiting[a].ticket != s.waiting[b].ticket);
        }
        assert forall|u: UserId, i: int| #[trigger]
            after.entries.contains_key(u) && 0 <= i < after.waiting.len() implies after.entries[u].holder
            != (#[trigger] after.waiting[i]).ticket by {
            let a = if i < k {
                i
            } else {
                i + 1
            };
            assert(s.entries.contains_key(u));
            assert(s.entries[u].holder != s.waiting[a].ticket);
            assert(s.waiting[k].ticket != s.waiting[a].ticket);
        }
        assert forall|u: UserId| #[trigger] after.entries.contains_key(u) implies after.entries[u].id
            < after.next_ticket && after.entries[u].holder < after.next_ticket by {
            assert(s.entries.contains_key(u));
            assert(s.waiting[k].ticket < s.next_ticket);
        }
    } else if is_holder(s, guard) {
        assert forall|i: int| 0 <= i < after.waiting.len() implies is_locked(
            after,
            (#[trigger] after.waiting[i]).user_id,
        ) by {
            assert(is_locked(s, s.waiting[i].user_id));
            assert(s.waiting[i].user_id != guard.user_id);
        }
        assert forall|u: UserId| #[trigger] after.entries.contains_key(u) implies after.entries[u].id
            < after.next_ticket && after.entries[u].holder < after.next_ticket by {
            assert(s.entries.contains_key(u));
        }
        assert forall|u: UserId, i: int| #[trigger]
            after.entries.contains_key(u) && 0 <= i < after.waiting.len() implies after.entries[u].holder
            != (#[trigger] after.waiting[i]).ticket by {
            assert(s.entries.contains_key(u));
        }
    }
}

/// Cleaning up keeps the registry well formed.
pub proof fn lemma_cleanup_keeps_wf(s: LockState, guard: SelfRemoving)
    requires
        state_wf(s),
    ensures
        state_wf(cleanup_step(s, guard)),
{
    let after = cleanup_step(s, guard);
    assert forall|i: int| 0 <= i < after.waiting.len() implies is_locked(
        after,
        (#[trigger] after.waiting[i]).user_id,
    ) by {
        assert(is_locked(s, s.waiting[i].user_id));
    }
    assert forall|u: UserId| #[trigger] after.entries.contains_key(u) implies after.entries[u].id
        < after.next_ticket && after.entries[u].holder < after.next_ticket by {
        assert(s.entries.contains_key(u));
    }
    assert forall|u: UserId, i: int| #[trigger]
        after.entries.contains_key(u) && 0 <= i < after.waiting.len() implies after.entries[u].holder
        != (#[trigger] after.waiting[i]).ticket by {
        assert(s.entries.contains_key(u));
    }
}

/// The registry of per-user locks.
pub struct UserLocks {
    map: DashMap<u64, LockValue>,
    waiting: Vec<Waiter>,
    next_ticket: u64,
}

impl View for UserLocks {
    type V = LockState;

    closed spec fn view(&self) -> LockState {
        LockState {
            entries: lock_entries(self.map),
            waiting: self.waiting@,
            next_ticket: self.next_ticket,
        }
    }
}

impl UserLocks {
    /// Whether the registry is in a state it can be in. A fresh registry
    /// is, and every operation keeps it so.
    pub open spec fn wf(&self) -> bool {
        state_wf(self@)
    }

    /// A registry in which no lock is in use.
    pub fn new() -> (locks: UserLocks)
        ensures
            locks@.entries == Map::<UserId, LockValue>::empty(),
            locks@.waiting == Seq::<Waiter>::empty(),
            locks@.next_ticket == 0,
            locks.wf(),
    {
        UserLocks::starting_at(0)
    }

    /// A registry in which no lock is in use and whose tickets start at
    /// `first_ticket`.
    pub fn starting_at(first_ticket: u64) -> (locks: UserLocks)
        ensures
            locks@.entries == Map::<UserId, LockValue>::empty(),
            locks@.waiting == Seq::<Waiter>::empty(),
            locks@.next_ticket == first_ticket,
            locks.wf(),
    {
        let map = map_new();
        assert(lock_entries(map) =~= Map::<UserId, LockValue>::empty());
        UserLocks { map, waiting: Vec::new(), next_ticket: first_ticket }
    }

    /// Whether the registry remembers anything of a user.
    pub fn contains(&self, user_id: UserId) -> (found: bool)
        ensures
            found == self@.entries.contains_key(user_id),
    {
        map_get(&self.map, user_id).is_some()
    }

    /// Whether a user's lock is held.
    pub fn is_locked(&self, user_id: UserId) -> (locked: bool)
        ensures
            locked == is_locked(self@, user_id),
    {
        match map_get(&self.map, user_id) {
            Some(entry) => entry.held,
            None => false,
        }
    }

    /// Whether a token holds its user's lock.
    pub fn is_holder(&self, guard: &SelfRemoving) -> (holder: bool)
        ensures
            holder == is_holder(self@, *guard),
    {
        match map_get(&self.map, guard.user_id) {
            Some(entry) => entry.held && entry.holder == guard.ticket && entry.id == guard.id,
            None => false,
        }
    }

    /// The number of callers that queue, for any user.
    pub fn waiting(&self) -> (count: usize)
        ensures
            count == self@.waiting.len(),
    {
        self.waiting.len()
    }

    /// Asks for the lock of a user. The caller acquires it if nobody holds
    /// it, and else queues behind those who came before.
    pub fn lock_user_id(&mut self, user_id: UserId) -> (r: Result<LockOutcome, LockError>)
        ensures
            (final(self)@, r) == lock_step(old(self)@, user_id),
            old(self).wf() ==> final(self).wf(),
    {
        proof {
            if self.wf() {
                lemma_lock_keeps_wf(self@, user_id);
            }
        }
        if self.next_ticket == u64::MAX {
            return Err(LockError::Exhausted);
        }
        let ticket = self.next_ticket;
        match map_get(&self.map, user_id) {
            Some(entry) if entry.held => {
                self.next_ticket = ticket + 1;
                self.waiting.push(Waiter { user_id, ticket });
                Ok(LockOutcome::Queued(SelfRemoving { id: entry.id, user_id, ticket }))
            },
            _ => {
                self.next_ticket = ticket + 1;
                map_insert(
                    &mut self.map,
                    user_id,
                    LockValue { id: ticket, holder: ticket, held: true },
                );
                Ok(LockOutcome::Acquired(SelfRemoving { id: ticket, user_id, ticket }))
            },
        }
    }

    /// Lets go. If the token holds its user's lock, the lock goes to the
    /// first caller that queues for the user; if nobody does, the entry
    /// dies and waits for `cleanup`. If the token queues, it leaves the
    /// queue. Any other token changes nothing.
    pub fn release(&mut self, guard: &SelfRemoving) -> (released: Released)
        ensures
            (final(self)@, released) == release_step(old(self)@, *guard),
            old(self).wf() ==> final(self).wf(),
    {
        proof {
            if self.wf() {
                lemma_release_keeps_wf(self@, *guard);
            }
        }
        let found = map_get(&self.map, guard.user_id);
        let holder = match found {
            Some(entry) => entry.held && entry.holder == guard.ticket && entry.id == guard.id,
            None => false,
        };
        if !holder {
            return self.withdraw(guard);
        }
        let entry = found.unwrap();
        let mut k: usize = 0;
        while k < self.waiting.len() && self.waiting[k].user_id != guard.user_id
            invariant
                k <= self.waiting.len(),
                self.waiting@ == old(self).waiting@,
                self.map == old(self).map,
                self.next_ticket == old(self).next_ticket,
                forall|j: int| 0 <= j < k ==> (#[trigger] self.waiting@[j]).user_id != guard.user_id,
            decreases self.waiting.len() - k,
        {
            k += 1;
        }
        proof {
            lemma_first_waiter(self.waiting@, guard.user_id, k as int);
        }
        if k < self.waiting.len() {
            let next = self.waiting.remove(k);
            map_insert(
                &mut self.map,
                guard.user_id,
                LockValue { id: entry.id, holder: next.ticket, held: true },
            );
            Released::HandedOver(next.ticket)
        } else {
            map_insert(
                &mut self.map,
                guard.user_id,
                LockValue { id: entry.id, holder: entry.holder, held: false },
            );
            Released::Dropped
        }
    }

    /// Takes a queued token out of the queue.
    fn withdraw(&mut self, guard: &SelfRemoving) -> (released: Released)
        requires
            !is_holder(old(self)@, *guard),
        ensures
            (final(self)@, released) == release_step(old(self)@, *guard),
    {
        let mut k: usize = 0;
        while k < self.waiting.len() && !(self.waiting[k].user_id == guard.user_id
            && self.waiting[k].ticket == guard.ticket)
            invariant
                k <= self.waiting.len(),
                self.waiting@ == old(self).waiting@,
                self.map == old(self).map,
                self.next_ticket == old(self).next_ticket,
                forall|j: int| 0 <= j < k ==> #[trigger] self.waiting@[j] != waiter_of(*guard),
            decreases self.waiting.len() - k,
        {
            k += 1;
        }
        proof {
            lemma_waiter_index(self.waiting@, waiter_of(*guard), k as int);
        }
        if k < self.waiting.len() {
            self.waiting.remove(k);
            Released::Withdrawn
        } else {
            Released::Stale
        }
    }

    /// Cleans up after a token: removes its user's entry if the entry is
    /// still of the token's generation and dead. Returns whether it was.
    pub fn cleanup(&mut self, guard: &SelfRemoving) -> (removed: bool)
        ensures
            final(self)@ == cleanup_step(old(self)@, *guard),
            removed == (final(self)@ != old(self)@),
            old(self).wf() ==> final(self).wf(),
    {
        proof {
            if self.wf() {
                lemma_cleanup_keeps_wf(self@, *guard);
            }
        }
        let removed = map_remove_if(&mut self.map, guard.user_id, guard.id);
        proof {
            if removed {
                assert(!self@.entries.contains_key(guard.user_id));
                assert(old(self)@.entries.contains_key(guard.user_id));
            }
        }
        removed
    }

    /// Drops a token: lets go and, if the entry died, cleans up.
    pub fn drop_guard(&mut self, guard: SelfRemoving) -> (released: Released)
        ensures
            (final(self)@, released) == drop_step(old(self)@, guard),
            old(self).wf() ==> final(self).wf(),
    {
        let released = self.release(&guard);
        if released == Released::Dropped {
            self.cleanup(&guard);
        }
        released
    }
}

/// Mutual exclusion: a caller acquires a user's lock only if nobody holds
/// it; while the first caller holds the lock, a second caller queues and
/// does not hold it; and the second caller comes to hold the lock exactly
/// when the first lets go, who then holds it no longer.
pub proof fn law_lock_mutual_exclusion(s: LockState, user_id: UserId)
    requires
        state_wf(s),
        !is_locked(s, user_id),
        s.next_ticket < u64::MAX - 1,
    ensures
        ({
            let (s1, first) = lock_step(s, user_id);
            let (s2, second) = lock_step(s1, user_id);
            &&& first matches Ok(LockOutcome::Acquired(g1))
            &&& second matches Ok(LockOutcome::Queued(g2))
            &&& g1.ticket != g2.ticket
            &&& holds(s1, user_id, g1.ticket)
            &&& holds(s2, user_id, g1.ticket)
            &&& !holds(s2, user_id, g2.ticket)
            &&& queues(s2, user_id, g2.ticket)
            &&& release_step(s2, g1).1 == Released::HandedOver(g2.ticket)
            &&& holds(release_step(s2, g1).0, user_id, g2.ticket)
            &&& !holds(release_step(s2, g1).0, user_id, g1.ticket)
        }),
{
    let (s1, first) = lock_step(s, user_id);
    let (s2, second) = lock_step(s1, user_id);
    let g1 = SelfRemoving { id: s.next_ticket, user_id, ticket: s.next_ticket };
    let g2 = SelfRemoving { id: s.next_ticket, user_id, ticket: (s.next_ticket + 1) as u64 };
    let w = Waiter { user_id, ticket: g2.ticket };
    assert(s2.waiting == s.waiting.push(w));
    assert(s2.waiting[s.waiting.len() as int] == w);
    assert forall|j: int| 0 <= j < s.waiting.len() implies (#[trigger] s2.waiting[j]).user_id
        != user_id by {
        assert(s2.waiting[j] == s.waiting[j]);
        assert(is_locked(s, s.waiting[j].user_id));
    }
    lemma_first_waiter(s2.waiting, user_id, s.waiting.len() as int);
}

/// Letting go lets go: whoever held a lock and let go holds it no longer
/// and does not queue for it; and if the lock was handed over, it went to
/// a caller that queued for it, who now holds it and queues no more.
pub proof fn law_release_lets_go(s: LockState, guard: SelfRemoving)
    requires
        state_wf(s),
        is_holder(s, guard),
    ensures
        ({
            let (after, released) = release_step(s, guard);
            &&& !holds(after, guard.user_id, guard.ticket)
            &&& !queues(after, guard.user_id, guard.ticket)
            &&& released != Released::Stale
            &&& released != Released::Withdrawn
            &&& released == Released::Dropped ==> !is_locked(after, guard.user_id)
            &&& (released matches Released::HandedOver(next) ==> queues(s, guard.user_id, next)
                && holds(after, guard.user_id, next) && !queues(after, guard.user_id, next))
        }),
{
    let (after, released) = release_step(s, guard);
    lemma_first_waiter_is_first(s.waiting, guard.user_id);
    lemma_release_keeps_wf(s, guard);
    let k = first_waiter(s.waiting, guard.user_id);
    assert(s.entries.contains_key(guard.user_id));
    assert(after.entries.contains_key(guard.user_id));
    if after.waiting.contains(waiter_of(guard)) {
        let i = choose|i: int| 0 <= i < after.waiting.len() && after.waiting[i] == waiter_of(guard);
        if k < s.waiting.len() {
            let a = if i < k {
                i
            } else {
                i + 1
            };
            assert(after.waiting[i] == s.waiting[a]);
            assert(s.entries[guard.user_id].holder != s.waiting[a].ticket);
        } else {
            assert(s.entries[guard.user_id].holder != s.waiting[i].ticket);
        }
    }
    if k < s.waiting.len() {
        let next = s.waiting[k].ticket;
        assert(s.waiting[k] == Waiter { user_id: guard.user_id, ticket: next });
        assert(s.entries[guard.user_id].holder != s.waiting[k].ticket);
        if after.waiting.contains(Waiter { user_id: guard.user_id, ticket: next }) {
            let i = choose|i: int|
                0 <= i < after.waiting.len() && after.waiting[i] == Waiter {
                    user_id: guard.user_id,
                    ticket: next,
                };
            assert(after.entries[guard.user_id].holder != after.waiting[i].ticket);
        }
    }
}

/// Leaving the queue: a caller that queues and lets go leaves the queue,
/// so that the lock is never handed to it; who holds which lock and who
/// else queues stays as it was.
pub proof fn law_withdrawn_leaves_queue(s: LockState, guard: SelfRemoving)
    requires
        state_wf(s),
        queues(s, guard.user_id, guard.ticket),
    ensures
        ({
            let (after, released) = release_step(s, guard);
            &&& released == Released::Withdrawn
            &&& !queues(after, guard.user_id, guard.ticket)
            &&& after.entries == s.entries
            &&& after.next_ticket == s.next_ticket
            &&& forall|other: Waiter|
                other != waiter_of(guard) ==> (after.waiting.contains(other) <==> s.waiting.contains(
                    other,
                ))
        }),
{
    let (after, released) = release_step(s, guard);
    let w = waiter_of(guard);
    lemma_waiter_index_is_first(s.waiting, w);
    let k = waiter_index(s.waiting, w);
    let at = choose|i: int| 0 <= i < s.waiting.len() && s.waiting[i] == w;
    if is_holder(s, guard) {
        assert(s.entries.contains_key(guard.user_id));
        assert(s.entries[guard.user_id].holder != s.waiting[at].ticket);
    }
    assert(k < s.waiting.len()) by {
        if k >= s.waiting.len() {
            assert(s.waiting[at] != w);
        }
    }
    if after.waiting.contains(w) {
        let i = choose|i: int| 0 <= i < after.waiting.len() && after.waiting[i] == w;
        let a = if i < k {
            i
        } else {
            i + 1
        };
        assert(after.waiting[i] == s.waiting[a]);
        if a < k {
            assert(s.waiting[a].ticket != s.waiting[k].ticket);
        } else {
            assert(s.waiting[k].ticket != s.waiting[a].ticket);
        }
    }
    assert forall|other: Waiter| other != w implies (after.waiting.contains(other)
        <==> s.waiting.contains(other)) by {
        if after.waiting.contains(other) {
            let i = choose|i: int| 0 <= i < after.waiting.len() && after.waiting[i] == other;
            let a = if i < k {
                i
            } else {
                i + 1
            };
            assert(s.waiting[a] == other);
        }
        if s.waiting.contains(other) {
            let a = choose|a: int| 0 <= a < s.waiting.len() && s.waiting[a] == other;
            let i = if a < k {
                a
            } else {
                a - 1
            };
            assert(after.waiting[i] == other);
        }
    }
}

/// At most one ticket holds a user's lock at any time.
pub proof fn law_single_holder(s: LockState, user_id: UserId, a: u64, b: u64)
    requires
        holds(s, user_id, a),
        holds(s, user_id, b),
    ensures
        a == b,
{
}

/// The lock changes hands only when its holder lets go: asking for a lock
/// never takes it from its holder, and neither does cleaning up or a token
/// that does not hold it.
pub proof fn law_holder_keeps_lock(s: LockState, user_id: UserId, ticket: u64, other: UserId, guard: SelfRemoving)
    requires
        state_wf(s),
        holds(s, user_id, ticket),
    ensures
        holds(lock_step(s, other).0, user_id, ticket),
        holds(cleanup_step(s, guard), user_id, ticket),
        !is_holder(s, guard) ==> holds(release_step(s, guard).0, user_id, ticket),
        guard.user_id != user_id ==> holds(release_step(s, guard).0, user_id, ticket),
{
}

/// Cleanup: when the only caller for a user drops its token and nobody
/// asked for the lock in between, the registry remembers nothing of the
/// user.
pub proof fn law_lock_cleanup(s: LockState, user_id: UserId)
    requires
        state_wf(s),
        !is_locked(s, user_id),
        s.next_ticket < u64::MAX,
    ensures
        ({
            let (s1, first) = lock_step(s, user_id);
            &&& first matches Ok(LockOutcome::Acquired(g))
            &&& drop_step(s1, g).1 == Released::Dropped
            &&& !drop_step(s1, g).0.entries.contains_key(user_id)
        }),
{
    let (s1, first) = lock_step(s, user_id);
    assert forall|j: int| 0 <= j < s1.waiting.len() implies (#[trigger] s1.waiting[j]).user_id
        != user_id by {
        assert(is_locked(s, s.waiting[j].user_id));
    }
    lemma_first_waiter(s1.waiting, user_id, s1.waiting.len() as int);
}

/// Generations: if a new caller takes a user's lock after the old entry
/// died but before it was cleaned up, the late clean-up leaves the new
/// entry alone.
pub proof fn law_stale_cleanup(s: LockState, guard: SelfRemoving)
    requires
        state_wf(s),
        is_holder(s, guard),
        release_step(s, guard).1 == Released::Dropped,
        s.next_ticket < u64::MAX,
    ensures
        ({
            let dead = release_step(s, guard).0;
            let (taken, outcome) = lock_step(dead, guard.user_id);
            &&& outcome matches Ok(LockOutcome::Acquired(g))
            &&& g.id != guard.id
            &&& cleanup_step(taken, guard) == taken
            &&& holds(cleanup_step(taken, guard), guard.user_id, g.ticket)
        }),
{
    assert(s.entries.contains_key(guard.user_id));
}

} // verus!
