//! The waiters for events, and what becomes of them when a waiter registers,
//! an event comes, or a waiter leaves.
//!
//! The host that receives the events holds a [`Waiters`] under its lock. It
//! calls [`Waiters::register`] for each command and subscriber,
//! [`Waiters::deliver`] for each event that it has received, and wakes the
//! waiters where that returns `true`. A waiter that wakes calls
//! [`Waiters::take`], and [`Waiters::unregister`] when it is done.

use vstd::prelude::*;
use crate::hci::consts::{Opcode, Status};
use crate::hci::event::{Error, ErrorView, Event, EventFilter, EventView};

verus! {

/// Registered event waiter: its identifier, the events that it waits for, and
/// whether an event has come for it.
#[derive(Clone, Copy, Debug, PartialEq, Eq, Structural)]
pub struct Waiter {
    pub id: u64,
    pub filter: EventFilter,
    pub ready: bool,
}

/// What the queue of waiters holds: the waiters, the identifier of the next
/// waiter, and the number of commands that the controller accepts.
pub struct WaitersView {
    pub queue: Seq<Waiter>,
    pub next_id: u64,
    pub cmd_quota: u8,
}

impl WaitersView {
    /// The queue without waiters, with a command quota of one.
    pub open spec fn empty() -> WaitersView {
        WaitersView { queue: Seq::empty(), next_id: 0, cmd_quota: 1 }
    }

    /// Whether no two waiters share an identifier or a filter, and every
    /// identifier is below the next one.
    pub open spec fn wf(self) -> bool {
        &&& forall|i: int, j: int|
            0 <= i < j < self.queue.len() ==> (#[trigger] self.queue[i]).id != (
            #[trigger] self.queue[j]).id && self.queue[i].filter != self.queue[j].filter
        &&& forall|i: int| 0 <= i < self.queue.len() ==> (#[trigger] self.queue[i]).id < self.next_id
    }

    /// Whether a waiter with the filter `f` is registered.
    pub open spec fn has_filter(self, f: EventFilter) -> bool {
        exists|i: int| 0 <= i < self.queue.len() && (#[trigger] self.queue[i]).filter == f
    }

    /// Whether a waiter with the identifier `id` is registered.
    pub open spec fn has_id(self, id: u64) -> bool {
        exists|i: int| 0 <= i < self.queue.len() && (#[trigger] self.queue[i]).id == id
    }

    /// The index of the waiter with the identifier `id`.
    pub open spec fn index_of(self, id: u64) -> int {
        choose|i: int| 0 <= i < self.queue.len() && (#[trigger] self.queue[i]).id == id
    }

    /// The result of registering a waiter with the filter `f`: its
    /// identifier, or the reason why it cannot register.
    ///
    /// A waiter cannot register while another with the same filter is
    /// registered. A waiter for a command cannot register while the command
    /// quota is zero.
    pub open spec fn register_result(self, f: EventFilter) -> Result<u64, ErrorView> {
        if self.has_filter(f) {
            Err(ErrorView::FilterConflict)
        } else if f is Command && self.cmd_quota == 0 {
            Err(ErrorView::CommandQuotaExceeded)
        } else {
            Ok(self.next_id)
        }
    }

    /// The queue after a waiter with the filter `f` has tried to register.
    ///
    /// A waiter that registers joins the end of the queue. A command takes
    /// one from the command quota; a reset takes all of it, until the
    /// controller has answered.
    pub open spec fn register(self, f: EventFilter) -> WaitersView {
        if self.register_result(f).is_err() {
            self
        } else {
            WaitersView {
                queue: self.queue.push(Waiter { id: self.next_id, filter: f, ready: false }),
                next_id: (self.next_id + 1) as u64,
                cmd_quota: match f {
                    EventFilter::Command(Opcode::Reset) => 0,
                    EventFilter::Command(_) => (self.cmd_quota - 1) as u8,
                    _ => self.cmd_quota,
                },
            }
        }
    }

    /// The queue after the waiter with the identifier `id` has left: the last
    /// waiter takes its place.
    pub open spec fn unregister(self, id: u64) -> WaitersView {
        if self.has_id(id) {
            WaitersView {
                queue: self.queue.update(self.index_of(id), self.queue.last()).drop_last(),
                ..self
            }
        } else {
            self
        }
    }

    /// The queue after the event `e` has come: each waiter that waits for the
    /// event is ready, and a command response sets the command quota.
    pub open spec fn deliver(self, e: EventView) -> WaitersView {
        WaitersView {
            queue: Seq::new(
                self.queue.len(),
                |i: int|
                    Waiter { ready: self.queue[i].ready || e.matches(self.queue[i].filter), ..self.queue[i] },
            ),
            next_id: self.next_id,
            cmd_quota: if e.typ.is_cmd() {
                e.cmd_quota
            } else {
                self.cmd_quota
            },
        }
    }

    /// The identifiers of the waiters among the first `n` that wait for the
    /// event `e`, in the order of the queue.
    pub open spec fn matching_to(self, e: EventView, n: int) -> Seq<u64>
        decreases n,
    {
        if n <= 0 {
            Seq::empty()
        } else if e.matches(self.queue[n - 1].filter) {
            self.matching_to(e, n - 1).push(self.queue[n - 1].id)
        } else {
            self.matching_to(e, n - 1)
        }
    }

    /// The identifiers of the waiters that wait for the event `e`, in the
    /// order of the queue.
    pub open spec fn matching(self, e: EventView) -> Seq<u64> {
        self.matching_to(e, self.queue.len() as int)
    }

    /// The waiters that wait for an event are those whose identifiers
    /// `matching` lists.
    pub proof fn lemma_matching(self, e: EventView, n: int)
        requires
            0 <= n <= self.queue.len(),
        ensures
            forall|id: u64|
                self.matching_to(e, n).contains(id) <==> exists|i: int|
                    0 <= i < n && (#[trigger] self.queue[i]).id == id && e.matches(
                        self.queue[i].filter,
                    ),
        decreases n,
    {
        if n > 0 {
            self.lemma_matching(e, n - 1);
            let prev = self.matching_to(e, n - 1);
            let cur = self.matching_to(e, n);
            let w = self.queue[n - 1];
            assert forall|id: u64| cur.contains(id) <==> exists|i: int|
                0 <= i < n && (#[trigger] self.queue[i]).id == id && e.matches(
                    self.queue[i].filter,
                ) by {
                if cur.contains(id) {
                    let k = choose|k: int| 0 <= k < cur.len() && cur[k] == id;
                    if e.matches(w.filter) && k == prev.len() {
                        assert(self.queue[n - 1].id == id);
                    } else {
                        assert(prev[k] == id);
                        assert(prev.contains(id));
                    }
                }
                if exists|i: int|
                    0 <= i < n && (#[trigger] self.queue[i]).id == id && e.matches(
                        self.queue[i].filter,
                    ) {
                    let i = choose|i: int|
                        0 <= i < n && (#[trigger] self.queue[i]).id == id && e.matches(
                            self.queue[i].filter,
                        );
                    if i == n - 1 {
                        assert(cur[prev.len() as int] == id);
                    } else {
                        assert(prev.contains(id));
                        let k = choose|k: int| 0 <= k < prev.len() && prev[k] == id;
                        assert(cur[k] == id);
                    }
                }
            }
        }
    }

    /// Whether the event `e` is one that some waiter waits for.
    pub open spec fn received(self, e: EventView) -> bool {
        exists|i: int| 0 <= i < self.queue.len() && e.matches((#[trigger] self.queue[i]).filter)
    }

    /// What the waiter with the identifier `id` finds when it looks for its
    /// event: `true` if one has come, `false` if it has to wait, and an error
    /// if the waiter is not registered.
    pub open spec fn take_result(self, id: u64) -> Result<bool, ErrorView> {
        if self.has_id(id) {
            Ok(self.queue[self.index_of(id)].ready)
        } else {
            Err(ErrorView::Hci { status: Status::UnspecifiedError })
        }
    }

    /// The queue after the waiter with the identifier `id` has looked for its
    /// event: it is no longer ready.
    pub open spec fn take(self, id: u64) -> WaitersView {
        if self.has_id(id) {
            WaitersView {
                queue: self.queue.update(
                    self.index_of(id),
                    Waiter { ready: false, ..self.queue[self.index_of(id)] },
                ),
                ..self
            }
        } else {
            self
        }
    }

    /// The queue after the waiters with the identifiers `ids` have left, one
    /// after the other.
    pub open spec fn unregister_all(self, ids: Seq<u64>) -> WaitersView
        decreases ids.len(),
    {
        if ids.len() == 0 {
            self
        } else {
            self.unregister(ids[0]).unregister_all(ids.drop_first())
        }
    }

    /// The queue after waiters with the filters `fs` have tried to register,
    /// one after the other.
    pub open spec fn register_all(self, fs: Seq<EventFilter>) -> WaitersView
        decreases fs.len(),
    {
        if fs.len() == 0 {
            self
        } else {
            self.register(fs[0]).register_all(fs.drop_first())
        }
    }

    /// In a well-formed queue the index of a registered identifier is the
    /// only index that holds it.
    pub proof fn lemma_index_of(self, id: u64, i: int)
        requires
            self.wf(),
            0 <= i < self.queue.len(),
            self.queue[i].id == id,
        ensures
            self.has_id(id),
            self.index_of(id) == i,
    {
        let j = self.index_of(id);
        if j < i {
            assert(self.queue[j].id != self.queue[i].id);
        } else if i < j {
            assert(self.queue[i].id != self.queue[j].id);
        }
    }

    /// Registering keeps the queue well-formed, and a waiter that has
    /// registered is in the queue.
    pub proof fn lemma_register(self, f: EventFilter)
        requires
            self.wf(),
            self.next_id < u64::MAX,
        ensures
            self.register(f).wf(),
            self.register_result(f) matches Ok(id) ==> self.register(f).has_id(id)
                && !self.has_id(id) && self.register(f).queue.len() == self.queue.len() + 1,
            forall|id: u64| self.has_id(id) ==> self.register(f).has_id(id),
    {
        let r = self.register(f);
        if self.register_result(f).is_ok() {
            assert(r.queue.last().id == self.next_id);
            assert forall|i: int, j: int| 0 <= i < j < r.queue.len() implies (#[trigger] r.queue[i]).id
                != (#[trigger] r.queue[j]).id && r.queue[i].filter != r.queue[j].filter by {
                assert(r.queue[i] == self.queue[i]);
                if j < self.queue.len() {
                    assert(r.queue[j] == self.queue[j]);
                }
            }
            assert forall|i: int| 0 <= i < r.queue.len() implies (#[trigger] r.queue[i]).id
                < r.next_id by {
                if i < self.queue.len() {
                    assert(r.queue[i] == self.queue[i]);
                }
            }
            assert forall|id: u64| self.has_id(id) implies r.has_id(id) by {
                let i = self.index_of(id);
                assert(r.queue[i].id == id);
            }
            if self.has_id(self.next_id) {
                let i = self.index_of(self.next_id);
                assert(self.queue[i].id < self.next_id);
            }
        }
    }

    /// A waiter that leaves is no longer in the queue, every other waiter
    /// stays, and the queue stays well-formed.
    pub proof fn lemma_unregister(self, id: u64)
        requires
            self.wf(),
        ensures
            self.unregister(id).wf(),
            !self.unregister(id).has_id(id),
            forall|other: u64| other != id ==> self.unregister(id).has_id(other) == self.has_id(other),
            self.has_id(id) ==> self.unregister(id).queue.len() == self.queue.len() - 1,
            !self.has_id(id) ==> self.unregister(id) == self,
    {
        let r = self.unregister(id);
        if self.has_id(id) {
            let i = self.index_of(id);
            let n = self.queue.len() as int;
            // Where each waiter of the new queue stood in the old one
            assert forall|k: int| 0 <= k < r.queue.len() implies (#[trigger] r.queue[k]) == self.queue[if k
                == i {
                n - 1
            } else {
                k
            }] by {}
            assert forall|a: int, b: int| 0 <= a < b < r.queue.len() implies (#[trigger] r.queue[a]).id
                != (#[trigger] r.queue[b]).id && r.queue[a].filter != r.queue[b].filter by {
                let oa = if a == i {
                    n - 1
                } else {
                    a
                };
                let ob = if b == i {
                    n - 1
                } else {
                    b
                };
                assert(r.queue[a] == self.queue[oa]);
                assert(r.queue[b] == self.queue[ob]);
                if oa < ob {
                    assert(self.queue[oa].id != self.queue[ob].id);
                } else {
                    assert(self.queue[ob].id != self.queue[oa].id);
                }
            }
            assert forall|k: int| 0 <= k < r.queue.len() implies (#[trigger] r.queue[k]).id
                < r.next_id by {
                let ok = if k == i {
                    n - 1
                } else {
                    k
                };
                assert(r.queue[k] == self.queue[ok]);
            }
            if r.has_id(id) {
                let k = r.index_of(id);
                let ok = if k == i {
                    n - 1
                } else {
                    k
                };
                assert(r.queue[k] == self.queue[ok]);
                self.lemma_index_of(id, ok);
            }
            assert forall|other: u64| other != id implies r.has_id(other) == self.has_id(other) by {
                if self.has_id(other) {
                    let k = self.index_of(other);
                    if k == n - 1 {
                        assert(r.queue[i].id == other);
                    } else {
                        assert(r.queue[k].id == other);
                    }
                }
                if r.has_id(other) {
                    let k = r.index_of(other);
                    let ok = if k == i {
                        n - 1
                    } else {
                        k
                    };
                    assert(self.queue[ok].id == other);
                }
            }
        }
    }

    /// When every waiter of the queue has left, the queue is empty.
    pub proof fn lemma_unregister_all(self, ids: Seq<u64>)
        requires
            self.wf(),
            forall|i: int|
                0 <= i < self.queue.len() ==> ids.contains((#[trigger] self.queue[i]).id),
        ensures
            self.unregister_all(ids).queue.len() == 0,
            self.unregister_all(ids).wf(),
        decreases ids.len(),
    {
        if ids.len() == 0 {
            if self.queue.len() > 0 {
                assert(ids.contains(self.queue[0].id));
            }
        } else {
            let next = self.unregister(ids[0]);
            self.lemma_unregister(ids[0]);
            assert forall|i: int| 0 <= i < next.queue.len() implies ids.drop_first().contains(
                (#[trigger] next.queue[i]).id,
            ) by {
                let id = next.queue[i].id;
                assert(next.has_id(id));
                assert(id != ids[0]);
                assert(self.has_id(id));
                let k = self.index_of(id);
                assert(ids.contains(self.queue[k].id));
                let m = choose|m: int| 0 <= m < ids.len() && ids[m] == id;
                assert(ids.drop_first()[m - 1] == id);
            }
            next.lemma_unregister_all(ids.drop_first());
        }
    }

    /// The waiters of a queue into which waiters have registered are those
    /// that were in it and those that have registered since.
    pub proof fn lemma_register_all(self, fs: Seq<EventFilter>)
        requires
            self.wf(),
            self.next_id + fs.len() <= u64::MAX,
        ensures
            self.register_all(fs).wf(),
            self.register_all(fs).next_id <= self.next_id + fs.len(),
            forall|i: int|
                0 <= i < self.register_all(fs).queue.len() ==> self.has_id(
                    (#[trigger] self.register_all(fs).queue[i]).id,
                ) || self.next_id <= self.register_all(fs).queue[i].id < self.next_id + fs.len(),
        decreases fs.len(),
    {
        if fs.len() > 0 {
            let next = self.register(fs[0]);
            self.lemma_register(fs[0]);
            next.lemma_register_all(fs.drop_first());
            let r = self.register_all(fs);
            assert forall|i: int| 0 <= i < r.queue.len() implies self.has_id(
                (#[trigger] r.queue[i]).id,
            ) || self.next_id <= r.queue[i].id < self.next_id + fs.len() by {
                let id = r.queue[i].id;
                if next.has_id(id) {
                    let k = next.index_of(id);
                    if k < self.queue.len() {
                        assert(self.queue[k].id == id);
                    }
                }
            }
        }
    }

    /// Registering any number of waiters into an empty queue and dropping
    /// each of them leaves the queue empty.
    pub proof fn lemma_register_and_drop_all(fs: Seq<EventFilter>)
        requires
            fs.len() <= u64::MAX,
        ensures
            WaitersView::empty().register_all(fs).unregister_all(
                Seq::new(fs.len(), |i: int| i as u64),
            ).queue.len() == 0,
    {
        let s = WaitersView::empty();
        let r = s.register_all(fs);
        let ids = Seq::new(fs.len(), |i: int| i as u64);
        s.lemma_register_all(fs);
        assert forall|i: int| 0 <= i < r.queue.len() implies ids.contains(
            (#[trigger] r.queue[i]).id,
        ) by {
            let id = r.queue[i].id;
            if s.has_id(id) {
                let k = s.index_of(id);
            }
            assert(ids[id as int] == id);
        }
        r.lemma_unregister_all(ids);
    }

    /// A command response makes ready the waiter for its opcode and no
    /// other waiter, and no other event makes a waiter for a command ready.
    pub proof fn lemma_command_pairing(self, e: EventView, i: int)
        requires
            self.wf(),
            0 <= i < self.queue.len(),
        ensures
            self.deliver(e).queue.len() == self.queue.len(),
            self.deliver(e).queue[i].id == self.queue[i].id,
            self.deliver(e).queue[i].filter == self.queue[i].filter,
            self.queue[i].filter matches EventFilter::Command(op) ==> (self.deliver(
                e,
            ).queue[i].ready == (self.queue[i].ready || (e.typ.is_cmd() && e.opcode == op))),
            e.typ.is_cmd() ==> (self.deliver(e).queue[i].ready == (self.queue[i].ready
                || self.queue[i].filter == EventFilter::Command(e.opcode))),
            e.typ.is_cmd() ==> forall|j: int|
                0 <= j < self.queue.len() && j != i && e.matches(self.queue[i].filter)
                    ==> !e.matches((#[trigger] self.queue[j]).filter),
    {
        assert forall|j: int|
            0 <= j < self.queue.len() && j != i && e.typ.is_cmd() && e.matches(
                self.queue[i].filter,
            ) implies !e.matches((#[trigger] self.queue[j]).filter) by {
            if j < i {
                assert(self.queue[j].filter != self.queue[i].filter);
            } else {
                assert(self.queue[i].filter != self.queue[j].filter);
            }
        }
    }
}

/// Queue of event waiters.
#[derive(Debug)]
pub struct Waiters {
    queue: Vec<Waiter>,
    next_id: u64,
    cmd_quota: u8,
}

impl View for Waiters {
    type V = WaitersView;

    closed spec fn view(&self) -> WaitersView {
        WaitersView { queue: self.queue@, next_id: self.next_id, cmd_quota: self.cmd_quota }
    }
}

impl Waiters {
    /// Creates the queue without waiters, with a command quota of one.
    pub fn new() -> (r: Waiters)
        ensures
            r@ == WaitersView::empty(),
            r@.wf(),
    {
        Waiters { queue: Vec::new(), next_id: 0, cmd_quota: 1 }
    }

    /// Returns the number of registered waiters.
    pub fn len(&self) -> (r: usize)
        ensures
            r == self@.queue.len(),
    {
        self.queue.len()
    }

    /// Returns the number of commands that the controller accepts.
    pub fn cmd_quota(&self) -> (r: u8)
        ensures
            r == self@.cmd_quota,
    {
        self.cmd_quota
    }

    /// Returns whether another waiter can still be given an identifier.
    pub fn can_register(&self) -> (r: bool)
        ensures
            r == (self@.next_id < u64::MAX),
    {
        self.next_id < u64::MAX
    }

    /// Returns the index of the waiter with the identifier `id`.
    fn position(&self, id: u64) -> (r: Option<usize>)
        requires
            self@.wf(),
        ensures
            r.is_some() == self@.has_id(id),
            r matches Some(i) ==> i == self@.index_of(id) && i < self@.queue.len(),
    {
        let mut i: usize = 0;
        while i < self.queue.len()
            invariant
                self@.wf(),
                i <= self@.queue.len(),
                forall|k: int| 0 <= k < i ==> (#[trigger] self@.queue[k]).id != id,
            decreases self@.queue.len() - i,
        {
            if self.queue[i].id == id {
                proof {
                    self@.lemma_index_of(id, i as int);
                }
                return Some(i);
            }
            i += 1;
        }
        None
    }

    /// Registers an event waiter with filter `f`, and returns its identifier.
    pub fn register(&mut self, f: EventFilter) -> (r: Result<u64, Error>)
        requires
            old(self)@.wf(),
            old(self)@.next_id < u64::MAX,
        ensures
            final(self)@ == old(self)@.register(f),
            final(self)@.wf(),
            match r {
                Ok(id) => old(self)@.register_result(f) == Ok::<u64, ErrorView>(id),
                Err(e) => old(self)@.register_result(f) == Err::<u64, ErrorView>(e@),
            },
    {
        proof {
            self@.lemma_register(f);
        }
        let mut i: usize = 0;
        while i < self.queue.len()
            invariant
                *self == *old(self),
                self@.wf(),
                self@.register(f).wf(),
                i <= self@.queue.len(),
                forall|k: int| 0 <= k < i ==> (#[trigger] self@.queue[k]).filter != f,
            decreases self@.queue.len() - i,
        {
            if f.conflicts_with(&self.queue[i].filter) {
                return Err(Error::FilterConflict);
            }
            i += 1;
        }
        if let EventFilter::Command(opcode) = f {
            if self.cmd_quota == 0 {
                return Err(Error::CommandQuotaExceeded);
            }
            if opcode == Opcode::Reset {
                self.cmd_quota = 0;
            } else {
                self.cmd_quota -= 1;
            }
        }
        let id = self.next_id;
        self.next_id = self.next_id + 1;
        self.queue.push(Waiter { id, filter: f, ready: false });
        Ok(id)
    }

    /// Removes the waiter with the identifier `id`, if it is registered.
    pub fn unregister(&mut self, id: u64)
        requires
            old(self)@.wf(),
        ensures
            final(self)@ == old(self)@.unregister(id),
            final(self)@.wf(),
    {
        proof {
            self@.lemma_unregister(id);
        }
        if let Some(i) = self.position(id) {
            // Order doesn't matter: the last waiter takes the place
            let _ = self.queue.swap_remove(i);
        }
    }

    /// Returns the identifiers of the waiters that wait for the event `evt`,
    /// in the order of the queue.
    pub fn matching(&self, evt: &Event) -> (r: Vec<u64>)
        ensures
            r@ == self@.matching(evt@),
    {
        let mut out: Vec<u64> = Vec::new();
        let mut i: usize = 0;
        while i < self.queue.len()
            invariant
                i <= self@.queue.len(),
                out@ == self@.matching_to(evt@, i as int),
            decreases self@.queue.len() - i,
        {
            let w = self.queue[i];
            if evt.matches(&w.filter) {
                out.push(w.id);
            }
            i += 1;
        }
        out
    }

    /// Takes note of the event `evt` that was received: a command response
    /// sets the command quota, and each waiter that waits for the event is
    /// made ready. It returns whether there is such a waiter.
    pub fn deliver(&mut self, evt: &Event) -> (r: bool)
        requires
            old(self)@.wf(),
        ensures
            final(self)@ == old(self)@.deliver(evt@),
            final(self)@.wf(),
            r == old(self)@.received(evt@),
    {
        if evt.typ.is_cmd() {
            self.cmd_quota = evt.cmd_quota;
        }
        let mut received = false;
        let mut i: usize = 0;
        while i < self.queue.len()
            invariant
                i <= self@.queue.len(),
                self@.queue.len() == old(self)@.queue.len(),
                self@.next_id == old(self)@.next_id,
                self@.cmd_quota == old(self)@.deliver(evt@).cmd_quota,
                forall|k: int|
                    0 <= k < i ==> (#[trigger] self@.queue[k]) == old(self)@.deliver(evt@).queue[k],
                forall|k: int|
                    i <= k < self@.queue.len() ==> (#[trigger] self@.queue[k]) == old(
                        self,
                    )@.queue[k],
                received == exists|k: int|
                    0 <= k < i && evt@.matches((#[trigger] old(self)@.queue[k]).filter),
            decreases self@.queue.len() - i,
        {
            let w = self.queue[i];
            if evt.matches(&w.filter) {
                self.queue[i] = Waiter { ready: true, ..w };
                received = true;
            }
            i += 1;
        }
        proof {
            assert(self@.queue =~= old(self)@.deliver(evt@).queue);
            let r = self@;
            assert forall|a: int, b: int| 0 <= a < b < r.queue.len() implies (#[trigger] r.queue[a]).id
                != (#[trigger] r.queue[b]).id && r.queue[a].filter != r.queue[b].filter by {
                assert(old(self)@.queue[a].id != old(self)@.queue[b].id);
            }
            assert forall|k: int| 0 <= k < r.queue.len() implies (#[trigger] r.queue[k]).id
                < r.next_id by {
                assert(old(self)@.queue[k].id < old(self)@.next_id);
            }
        }
        received
    }

    /// Looks for the event of the waiter with the identifier `id`. It
    /// returns `true` if an event has come, which the waiter then has, `false`
    /// if the waiter has to wait, and an error if the waiter is no longer
    /// registered.
    pub fn take(&mut self, id: u64) -> (r: Result<bool, Error>)
        requires
            old(self)@.wf(),
        ensures
            final(self)@ == old(self)@.take(id),
            final(self)@.wf(),
            match r {
                Ok(ready) => old(self)@.take_result(id) == Ok::<bool, ErrorView>(ready),
                Err(e) => old(self)@.take_result(id) == Err::<bool, ErrorView>(e@),
            },
    {
        match self.position(id) {
            Some(i) => {
                let w = self.queue[i];
                self.queue[i] = Waiter { ready: false, ..w };
                proof {
                    let r = self@;
                    assert(r.queue =~= old(self)@.take(id).queue);
                    assert forall|a: int, b: int| 0 <= a < b < r.queue.len() implies (
                    #[trigger] r.queue[a]).id != (#[trigger] r.queue[b]).id && r.queue[a].filter
                        != r.queue[b].filter by {
                        assert(old(self)@.queue[a].id != old(self)@.queue[b].id);
                    }
                    assert forall|k: int| 0 <= k < r.queue.len() implies (#[trigger] r.queue[k]).id
                        < r.next_id by {
                        assert(old(self)@.queue[k].id < old(self)@.next_id);
                    }
                }
                Ok(w.ready)
            },
            None => Err(Error::Hci { status: Status::UnspecifiedError }),
        }
    }
}

impl Default for Waiters {
    fn default() -> (r: Waiters)
        ensures
            r@ == WaitersView::empty(),
    {
        Waiters::new()
    }
}

} // verus!
