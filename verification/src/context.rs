//! Named, shared single-threaded execution contexts.
//!
//! A context owns one OS thread and a single-threaded executor, woken at a
//! configurable maximum interval. The registry here is the process-wide
//! name-to-context table: acquiring a name that is already live shares its
//! thread (reference-counted) instead of starting a new one, and a live
//! name acquired with a different wait interval is rejected rather than
//! silently resolved. The thread and executor themselves live with the
//! embedding runtime; the registry decides identity, sharing and lifetime.

use vstd::prelude::*;

use crate::errors::AcquireError;

verus! {

/// A handle to an acquired context. Handles are counted by the registry;
/// the context is destroyed when the last one is released.
#[derive(Clone, Copy, Debug, PartialEq, Eq, Structural)]
pub struct ContextHandle {
    /// Identity of the context; two handles share a thread exactly when
    /// their ids are equal.
    pub id: u64,
    /// The polling throttle the context was created with, in milliseconds.
    pub wait_interval: u32,
}

/// One live context known to the registry.
#[derive(Debug)]
pub struct ContextEntry {
    /// Identity of the context.
    pub id: u64,
    /// The sharing key. The empty name never reaches the registry's lookup:
    /// it stands for a private, unshared context.
    pub name: String,
    /// Maximum time the context thread sleeps before polling again, in
    /// milliseconds; 0 wakes immediately on readiness.
    pub wait_interval: u32,
    /// Number of live handles; always at least 1.
    pub handles: u64,
}

/// The process-wide name-to-context table.
pub struct ContextRegistry {
    /// The live contexts.
    pub entries: Vec<ContextEntry>,
    /// Identity for the next context created; ids are never reused.
    pub next_id: u64,
    /// How many context threads were ever started. A shared acquire does
    /// not start a thread, so this stays put when a name is re-acquired.
    pub threads_started: u64,
}

/// Whether a live entry with this (non-empty) name exists.
pub open spec fn has_live(s: Seq<ContextEntry>, name: Seq<char>) -> bool {
    exists|i: int| 0 <= i < s.len() && s[i].name@ == name
}

/// Whether a live entry with this name and this wait interval exists.
pub open spec fn has_live_with(s: Seq<ContextEntry>, name: Seq<char>, wait: u32) -> bool {
    exists|i: int| 0 <= i < s.len() && s[i].name@ == name && s[i].wait_interval == wait
}

/// The acquire transition that creates a context: a new entry is appended,
/// a thread is started, and the handle names the fresh id.
pub open spec fn acquire_creates(
    pre: ContextRegistry,
    post: ContextRegistry,
    name: Seq<char>,
    wait: u32,
    h: ContextHandle,
) -> bool {
    &&& post.entries@.len() == pre.entries@.len() + 1
    &&& forall|i: int| 0 <= i < pre.entries@.len() ==> post.entries@[i] == pre.entries@[i]
    &&& post.entries@.last().id == pre.next_id
    &&& post.entries@.last().name@ == name
    &&& post.entries@.last().wait_interval == wait
    &&& post.entries@.last().handles == 1
    &&& h == (ContextHandle { id: pre.next_id, wait_interval: wait })
    &&& post.next_id == pre.next_id + 1
    &&& post.threads_started == pre.threads_started + 1
}

/// The acquire transition that shares a live context: the handle count of
/// the entry with the requested name goes up by one, no thread starts, and
/// the handle names the existing id.
pub open spec fn acquire_shares(
    pre: ContextRegistry,
    post: ContextRegistry,
    name: Seq<char>,
    wait: u32,
    h: ContextHandle,
) -> bool {
    exists|i: int|
        {
            &&& 0 <= i < pre.entries@.len()
            &&& pre.entries@[i].name@ == name
            &&& pre.entries@[i].wait_interval == wait
            &&& h == (ContextHandle { id: pre.entries@[i].id, wait_interval: wait })
            &&& post.entries@ =~= pre.entries@.update(
                i,
                ContextEntry {
                    id: pre.entries@[i].id,
                    name: post.entries@[i].name,
                    wait_interval: wait,
                    handles: (pre.entries@[i].handles + 1) as u64,
                },
            )
            &&& post.entries@[i].name@ == name
            &&& post.next_id == pre.next_id
            &&& post.threads_started == pre.threads_started
        }
}

/// The release transition: the entry with the handle's id loses one
/// reference and disappears at zero; a handle whose context is already gone
/// releases nothing. The counters never move: no release starts a thread or
/// mints an id.
pub open spec fn released(
    pre: ContextRegistry,
    post: ContextRegistry,
    handle: ContextHandle,
) -> bool {
    &&& !(exists|i: int|
        0 <= i < pre.entries@.len() && #[trigger] pre.entries@[i].id == handle.id) ==> post == pre
    &&& forall|i: int|
        0 <= i < pre.entries@.len() && #[trigger] pre.entries@[i].id == handle.id
            && pre.entries@[i].handles > 1 ==> {
            &&& post.entries@.len() == pre.entries@.len()
            &&& (forall|j: int|
                0 <= j < pre.entries@.len() && j != i ==> post.entries@[j] == pre.entries@[j])
            &&& post.entries@[i].id == handle.id
            &&& post.entries@[i].name@ == pre.entries@[i].name@
            &&& post.entries@[i].wait_interval == pre.entries@[i].wait_interval
            &&& post.entries@[i].handles == pre.entries@[i].handles - 1
        }
    &&& forall|i: int|
        0 <= i < pre.entries@.len() && #[trigger] pre.entries@[i].id == handle.id
            && pre.entries@[i].handles == 1 ==> post.entries@ =~= pre.entries@.remove(i)
    &&& post.next_id == pre.next_id
    &&& post.threads_started == pre.threads_started
}

impl ContextRegistry {
    /// Registry invariant: non-empty names are unique (the sharing key),
    /// ids are unique and below the id counter, and every live entry has at
    /// least one handle.
    pub open spec fn wf(self) -> bool {
        &&& forall|i: int, j: int|
            0 <= i < j < self.entries@.len() ==> !(self.entries@[i].name@ =~= self.entries@[j].name@)
                || self.entries@[i].name@.len() == 0
        &&& forall|i: int, j: int|
            0 <= i < j < self.entries@.len() ==> self.entries@[i].id != self.entries@[j].id
        &&& forall|i: int| 0 <= i < self.entries@.len() ==> #[trigger] self.entries@[i].id
            < self.next_id
        &&& forall|i: int| 0 <= i < self.entries@.len() ==> #[trigger] self.entries@[i].handles >= 1
    }

    /// Room for the counters to move: acquiring may mint one id, start one
    /// thread, and raise one handle count.
    pub open spec fn can_grow(self) -> bool {
        &&& self.next_id < u64::MAX
        &&& self.threads_started < u64::MAX
        &&& forall|i: int| 0 <= i < self.entries@.len() ==> #[trigger] self.entries@[i].handles
            < u64::MAX
    }

    /// An empty registry: no live contexts, no threads started yet.
    pub fn new() -> (r: ContextRegistry)
        ensures
            r.wf(),
            r.entries@.len() == 0,
            r.next_id == 0,
            r.threads_started == 0,
    {
        ContextRegistry { entries: Vec::new(), next_id: 0, threads_started: 0 }
    }

    /// Whether a context with this id is still live. Ports and tasks hold
    /// non-owning references and check liveness before each operation.
    pub fn is_live(&self, id: u64) -> (r: bool)
        ensures
            r == exists|i: int| 0 <= i < self.entries@.len() && #[trigger] self.entries@[i].id
                == id,
    {
        let mut k: usize = 0;
        while k < self.entries.len()
            invariant
                0 <= k <= self.entries@.len(),
                forall|i: int| 0 <= i < k ==> #[trigger] self.entries@[i].id != id,
            decreases self.entries@.len() - k,
        {
            if self.entries[k].id == id {
                return true;
            }
            k += 1;
        }
        false
    }

    /// Acquires a context. The name is the sharing key: a live context with
    /// the same name and the same wait interval is shared (its thread is
    /// reused); the same name with a different wait interval is rejected;
    /// any other name, and the empty name, create a fresh context with its
    /// own thread. The empty name stands for a private, unshared context,
    /// so it never matches a live entry.
    pub fn acquire(&mut self, name: &str, wait_interval: u32) -> (r: Result<
        ContextHandle,
        AcquireError,
    >)
        requires
            old(self).wf(),
            old(self).can_grow(),
        ensures
            final(self).wf(),
            name@.len() == 0 || !has_live(old(self).entries@, name@) ==> (r is Ok
                && acquire_creates(*old(self), *final(self), name@, wait_interval, r.unwrap())),
            name@.len() > 0 && has_live_with(old(self).entries@, name@, wait_interval) ==> (r is Ok
                && acquire_shares(*old(self), *final(self), name@, wait_interval, r.unwrap())),
            name@.len() > 0 && has_live(old(self).entries@, name@) && !has_live_with(
                old(self).entries@,
                name@,
                wait_interval,
            ) ==> (r == Err::<ContextHandle, AcquireError>(AcquireError::IntervalConflict)
                && *final(self) == *old(self)),
    {
        let owned: String = name.to_owned();
        if !name.is_empty() {
            let mut k: usize = 0;
            while k < self.entries.len()
                invariant
                    *self == *old(self),
                    old(self).wf(),
                    old(self).can_grow(),
                    owned@ == name@,
                    name@.len() > 0,
                    0 <= k <= self.entries@.len(),
                    forall|i: int| 0 <= i < k ==> !(#[trigger] self.entries@[i].name@ =~= owned@),
                decreases self.entries@.len() - k,
            {
                if self.entries[k].name == owned {
                    if self.entries[k].wait_interval == wait_interval {
                        let id = self.entries[k].id;
                        let fresh_count = self.entries[k].handles + 1;
                        let ghost kk = k as int;
                        self.entries[k].handles = fresh_count;
                        proof {
                            assert(old(self).entries@[kk].name@ == name@);
                            assert(has_live_with(old(self).entries@, name@, wait_interval));
                            assert(has_live(old(self).entries@, name@));
                            assert(self.entries@ =~= old(self).entries@.update(
                                kk,
                                ContextEntry {
                                    id: old(self).entries@[kk].id,
                                    name: self.entries@[kk].name,
                                    wait_interval,
                                    handles: (old(self).entries@[kk].handles + 1) as u64,
                                },
                            ));
                            assert(acquire_shares(
                                *old(self),
                                *self,
                                name@,
                                wait_interval,
                                ContextHandle { id, wait_interval },
                            ));
                        }
                        return Ok(ContextHandle { id, wait_interval });
                    } else {
                        proof {
                            let kk = k as int;
                            assert(self.entries@[kk].name@ == name@);
                            assert(has_live(self.entries@, name@));
                            if has_live_with(self.entries@, name@, wait_interval) {
                                let j = choose|j: int|
                                    0 <= j < self.entries@.len() && self.entries@[j].name@ == name@
                                        && self.entries@[j].wait_interval == wait_interval;
                                assert(self.entries@[j].name@ =~= self.entries@[kk].name@);
                                assert(j == kk);
                            }
                        }
                        return Err(AcquireError::IntervalConflict);
                    }
                }
                k += 1;
            }
            proof {
                assert(!has_live(self.entries@, name@));
            }
        }
        let id = self.next_id;
        self.entries.push(ContextEntry { id, name: owned, wait_interval, handles: 1 });
        self.next_id = id + 1;
        self.threads_started = self.threads_started + 1;
        proof {
            assert(acquire_creates(
                *old(self),
                *self,
                name@,
                wait_interval,
                ContextHandle { id, wait_interval },
            ));
            assert forall|i: int, j: int|
                0 <= i < j < self.entries@.len() implies !(self.entries@[i].name@
                =~= self.entries@[j].name@) || self.entries@[i].name@.len() == 0 by {
                if j == self.entries@.len() - 1 && name@.len() > 0 {
                    assert(!(self.entries@[i].name@ =~= name@));
                }
            };
        }
        Ok(ContextHandle { id, wait_interval })
    }

    /// Releases one handle. The context with that id loses one reference
    /// and is destroyed when the count reaches zero; releasing an id that
    /// is no longer live changes nothing.
    pub fn release(&mut self, handle: ContextHandle)
        requires
            old(self).wf(),
        ensures
            final(self).wf(),
            released(*old(self), *final(self), handle),
    {
        let mut k: usize = 0;
        while k < self.entries.len()
            invariant
                old(self).wf(),
                0 <= k <= self.entries@.len(),
                forall|i: int| 0 <= i < k ==> #[trigger] self.entries@[i].id != handle.id,
                *self == *old(self),
            decreases self.entries@.len() - k,
        {
            if self.entries[k].id == handle.id {
                let ghost kk = k as int;
                proof {
                    assert forall|i: int|
                        0 <= i < old(self).entries@.len() && #[trigger] old(self).entries@[i].id
                            == handle.id implies i == kk by {
                        if i != kk {
                            assert(old(self).entries@[i].id != old(self).entries@[kk].id);
                        }
                    };
                }
                if self.entries[k].handles > 1 {
                    let fresh_count = self.entries[k].handles - 1;
                    self.entries[k].handles = fresh_count;
                } else {
                    self.entries.remove(k);
                    proof {
                        assert(self.entries@ =~= old(self).entries@.remove(kk));
                    }
                }
                return ;
            }
            k += 1;
        }
    }
}

/// Acquiring one non-empty name twice with one wait interval yields handles
/// that share one context (their ids are equal) while exactly one thread is
/// started; the registry is then in a state in which the same name with a
/// different wait interval is refused by `acquire`'s contract.
pub proof fn lemma_acquire_sharing(
    r0: ContextRegistry,
    r1: ContextRegistry,
    r2: ContextRegistry,
    name: Seq<char>,
    wait: u32,
    other_wait: u32,
    h1: ContextHandle,
    h2: ContextHandle,
)
    requires
        r0.wf(),
        name.len() > 0,
        !has_live(r0.entries@, name),
        acquire_creates(r0, r1, name, wait, h1),
        r1.wf(),
        acquire_shares(r1, r2, name, wait, h2),
        other_wait != wait,
    ensures
        h2.id == h1.id,
        r2.threads_started == r0.threads_started + 1,
        has_live(r2.entries@, name),
        !has_live_with(r2.entries@, name, other_wait),
{
    let last = r1.entries@.len() - 1;
    assert(r1.entries@[last].name@ == name);
    let i = choose|i: int|
        {
            &&& 0 <= i < r1.entries@.len()
            &&& r1.entries@[i].name@ == name
            &&& r1.entries@[i].wait_interval == wait
            &&& h2 == (ContextHandle { id: r1.entries@[i].id, wait_interval: wait })
            &&& r2.entries@ =~= r1.entries@.update(
                i,
                ContextEntry {
                    id: r1.entries@[i].id,
                    name: r2.entries@[i].name,
                    wait_interval: wait,
                    handles: (r1.entries@[i].handles + 1) as u64,
                },
            )
            &&& r2.entries@[i].name@ == name
            &&& r2.next_id == r1.next_id
            &&& r2.threads_started == r1.threads_started
        };
    // The fresh entry is the only one carrying the name, so the shared
    // handle names the same context.
    assert(i == last) by {
        if i != last {
            assert(r1.entries@[i].name@ =~= r1.entries@[last].name@);
        }
    };
    assert(h2.id == r0.next_id);
    // No entry with the name carries a different interval afterwards.
    assert forall|j: int|
        0 <= j < r2.entries@.len() && #[trigger] r2.entries@[j].name@ == name implies r2.entries@[
        j
    ].wait_interval == wait by {
        if j != i {
            assert(r2.entries@[j] == r1.entries@[j]);
            assert(r1.entries@[j].name@ =~= r1.entries@[last].name@);
        }
    };
    assert(has_live(r2.entries@, name)) by {
        assert(r2.entries@[i].name@ == name);
    };
    if has_live_with(r2.entries@, name, other_wait) {
        let j = choose|j: int|
            0 <= j < r2.entries@.len() && r2.entries@[j].name@ == name && r2.entries@[
                j
            ].wait_interval == other_wait;
        assert(r2.entries@[j].wait_interval == wait);
    }
}

} // verus!
