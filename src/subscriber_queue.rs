//! An ordered buffer of messages read independently by several cursors.
//!
//! Every cursor sees the messages written after it subscribed, in order. A
//! message is kept only while some cursor has yet to acknowledge it.
use std::collections::VecDeque;
use vstd::prelude::*;

verus! {

/// A broadcast buffer with one read position per cursor.
///
/// `held` keeps the messages that at least one cursor still has to read;
/// `cursors` pairs each live cursor id with its offset into `held`.
#[derive(Debug)]
pub struct SubscriberQueue<T> {
    held: VecDeque<T>,
    cursors: Vec<(usize, usize)>,
    next_cursor_id: usize,
}

impl<T> View for SubscriberQueue<T> {
    /// For each live cursor, the messages it has not acknowledged yet, oldest first.
    type V = Map<usize, Seq<T>>;

    closed spec fn view(&self) -> Map<usize, Seq<T>> {
        Map::new(
            |id: usize| self.slot_of(id) >= 0,
            |id: usize| self.held@.subrange(self.cursors@[self.slot_of(id)].1 as int, self.held@.len() as int),
        )
    }
}

impl<T> SubscriberQueue<T> {
    /// Index of the cursor `id` in the cursor table, or -1 when there is none.
    closed spec fn slot_of(&self, id: usize) -> int {
        if exists|i: int| 0 <= i < self.cursors@.len() && self.cursors@[i].0 == id {
            choose|i: int| 0 <= i < self.cursors@.len() && self.cursors@[i].0 == id
        } else {
            -1
        }
    }

    /// The id that the next `subscribe` hands out.
    pub closed spec fn next_id(&self) -> usize {
        self.next_cursor_id
    }

    /// How many messages are stored.
    pub closed spec fn retained(&self) -> nat {
        self.held@.len()
    }

    /// No two slots of the cursor table hold the same id.
    closed spec fn ids_distinct(&self) -> bool {
        forall|i: int, j: int|
            0 <= i < self.cursors@.len() && 0 <= j < self.cursors@.len() && i != j
                ==> self.cursors@[i].0 != self.cursors@[j].0
    }

    /// The representation invariant.
    pub closed spec fn wf(&self) -> bool {
        &&& self.ids_distinct()
        &&& forall|i: int| 0 <= i < self.cursors@.len() ==> self.cursors@[i].1 <= self.held@.len()
        &&& forall|i: int| 0 <= i < self.cursors@.len() ==> self.cursors@[i].0 < self.next_cursor_id
        &&& self.cursors@.len() == 0 ==> self.held@.len() == 0
        &&& self.cursors@.len() > 0 ==> exists|i: int|
            0 <= i < self.cursors@.len() && self.cursors@[i].1 == 0
    }

    /// The stored messages are exactly those that the slowest cursor still has to read.
    pub open spec fn retains_only_needed(&self) -> bool {
        &&& forall|c: usize| self@.contains_key(c) ==> self@[c].len() <= self.retained()
        &&& self@.dom().is_empty() ==> self.retained() == 0
        &&& !self@.dom().is_empty() ==> exists|c: usize|
            self@.contains_key(c) && self@[c].len() == self.retained()
    }

    proof fn lemma_slot(&self, i: int)
        requires
            self.ids_distinct(),
            0 <= i < self.cursors@.len(),
        ensures
            self.slot_of(self.cursors@[i].0) == i,
            self@.contains_key(self.cursors@[i].0),
            self@[self.cursors@[i].0] == self.held@.subrange(
                self.cursors@[i].1 as int,
                self.held@.len() as int,
            ),
    {
        let id = self.cursors@[i].0;
        assert(exists|k: int| 0 <= k < self.cursors@.len() && self.cursors@[k].0 == id);
    }

    proof fn lemma_no_slot(&self, id: usize)
        requires
            self.wf(),
            forall|i: int| 0 <= i < self.cursors@.len() ==> self.cursors@[i].0 != id,
        ensures
            self.slot_of(id) == -1,
            !self@.contains_key(id),
    {
    }

    /// Creates a queue with no cursors and no messages.
    pub fn new() -> (r: Self)
        ensures
            r.wf(),
            r@ == Map::<usize, Seq<T>>::empty(),
            r.next_id() == 0,
            r.retained() == 0,
    {
        let r = SubscriberQueue { held: VecDeque::new(), cursors: Vec::new(), next_cursor_id: 0 };
        assert(r@ =~= Map::<usize, Seq<T>>::empty());
        r
    }

    /// Finds the slot of a live cursor.
    fn slot(&self, cursor_id: usize) -> (i: usize)
        requires
            self.wf(),
            self@.contains_key(cursor_id),
        ensures
            i < self.cursors@.len(),
            self.cursors@[i as int].0 == cursor_id,
            self.slot_of(cursor_id) == i,
    {
        let mut i: usize = 0;
        while i < self.cursors.len()
            invariant
                self.wf(),
                self@.contains_key(cursor_id),
                i <= self.cursors@.len(),
                forall|k: int| 0 <= k < i ==> self.cursors@[k].0 != cursor_id,
            decreases self.cursors@.len() - i,
        {
            if self.cursors[i].0 == cursor_id {
                proof {
                    self.lemma_slot(i as int);
                }
                return i;
            }
            i = i + 1;
        }
        proof {
            self.lemma_no_slot(cursor_id);
        }
        0
    }

    /// Appends a message: every live cursor sees it after what it has not read yet.
    /// With no live cursor nobody can ever read it, so it is not stored.
    pub fn write(&mut self, value: T)
        requires
            old(self).wf(),
        ensures
            final(self).wf(),
            final(self)@ == old(self)@.map_values(|s: Seq<T>| s.push(value)),
            final(self)@ == after(old(self)@, QueueEvent::Write(value)),
            final(self).next_id() == old(self).next_id(),
    {
        if self.cursors.len() == 0 {
            proof {
                assert forall|id: usize| !old(self)@.contains_key(id) by {
                    old(self).lemma_no_slot(id);
                }
                assert(self@ =~= old(self)@.map_values(|s: Seq<T>| s.push(value)));
            }
            return;
        }
        let ghost old_q = *self;
        self.held.push_back(value);
        proof {
            assert forall|id: usize| #[trigger] self@.contains_key(id) == old_q@.contains_key(id) by {
                if self@.contains_key(id) {
                    self.lemma_slot(self.slot_of(id));
                    old_q.lemma_slot(self.slot_of(id));
                }
                if old_q@.contains_key(id) {
                    old_q.lemma_slot(old_q.slot_of(id));
                    self.lemma_slot(old_q.slot_of(id));
                }
            }
            assert forall|id: usize| self@.contains_key(id) implies #[trigger] self@[id] == old_q@[id].push(value) by {
                let i = self.slot_of(id);
                self.lemma_slot(i);
                old_q.lemma_slot(i);
                assert(self@[id] =~= old_q@[id].push(value));
            }
            assert(self@ =~= old_q@.map_values(|s: Seq<T>| s.push(value)));
        }
    }

    /// Registers a new cursor at the current tail: it sees only later writes.
    pub fn subscribe(&mut self) -> (r: usize)
        requires
            old(self).wf(),
            old(self).next_id() < usize::MAX,
        ensures
            final(self).wf(),
            r == old(self).next_id(),
            !old(self)@.contains_key(r),
            final(self)@ == old(self)@.insert(r, Seq::<T>::empty()),
            final(self)@ == after(old(self)@, QueueEvent::<T>::Subscribe(r)),
            final(self).next_id() == old(self).next_id() + 1,
            final(self).retained() == old(self).retained(),
    {
        let ghost old_q = *self;
        let cursor_id = self.next_cursor_id;
        let len = self.held.len();
        self.cursors.push((cursor_id, len));
        self.next_cursor_id = self.next_cursor_id + 1;
        proof {
            let n = old_q.cursors@.len() as int;
            assert(self.cursors@[n] == (cursor_id, len));
            old_q.lemma_no_slot(cursor_id);
            assert(self.wf()) by {
                if old_q.cursors@.len() > 0 {
                    let k = choose|k: int| 0 <= k < old_q.cursors@.len() && old_q.cursors@[k].1 == 0;
                    assert(self.cursors@[k].1 == 0);
                } else {
                    assert(self.cursors@[0].1 == 0);
                }
            }
            assert forall|id: usize| #[trigger] self@.contains_key(id) == old_q@.insert(cursor_id, Seq::<T>::empty()).contains_key(id) by {
                if self@.contains_key(id) {
                    let i = self.slot_of(id);
                    self.lemma_slot(i);
                    if i < n {
                        old_q.lemma_slot(i);
                    }
                }
                if old_q@.contains_key(id) {
                    let i = old_q.slot_of(id);
                    old_q.lemma_slot(i);
                    self.lemma_slot(i);
                }
                self.lemma_slot(n);
            }
            assert forall|id: usize| self@.contains_key(id) implies #[trigger] self@[id] == old_q@.insert(cursor_id, Seq::<T>::empty())[id] by {
                let i = self.slot_of(id);
                self.lemma_slot(i);
                if i < n {
                    old_q.lemma_slot(i);
                } else {
                    assert(self@[id] =~= Seq::<T>::empty());
                }
            }
            assert(self@ =~= old_q@.insert(cursor_id, Seq::<T>::empty()));
        }
        cursor_id
    }

    /// The next message that the cursor has not acknowledged, if any.
    pub fn peek(&self, cursor_id: usize) -> (r: Option<&T>)
        requires
            self.wf(),
            self@.contains_key(cursor_id),
        ensures
            r is None <==> self@[cursor_id].len() == 0,
            r matches Some(v) ==> *v == self@[cursor_id][0],
    {
        let i = self.slot(cursor_id);
        proof {
            self.lemma_slot(i as int);
        }
        let pos = self.cursors[i].1;
        if pos < self.held.len() {
            Some(&self.held[pos])
        } else {
            None
        }
    }

    /// Moves the cursor past its next message. Returns whether there was one.
    /// The oldest message is dropped once no cursor still needs it.
    pub fn ack(&mut self, cursor_id: usize) -> (r: bool)
        requires
            old(self).wf(),
            old(self)@.contains_key(cursor_id),
        ensures
            final(self).wf(),
            r == (old(self)@[cursor_id].len() > 0),
            final(self)@ == (if r {
                old(self)@.insert(cursor_id, old(self)@[cursor_id].drop_first())
            } else {
                old(self)@
            }),
            final(self)@ == after(old(self)@, QueueEvent::<T>::Ack(cursor_id)),
            final(self).next_id() == old(self).next_id(),
    {
        let ghost old_q = *self;
        let i = self.slot(cursor_id);
        proof {
            self.lemma_slot(i as int);
        }
        let pos = self.cursors[i].1;
        if pos >= self.held.len() {
            return false;
        }
        self.cursors.set(i, (cursor_id, pos + 1));
        let ghost mid = *self;
        proof {
            assert forall|id: usize| #[trigger] mid@.contains_key(id) == old_q@.contains_key(id) by {
                if mid@.contains_key(id) {
                    mid.lemma_slot(mid.slot_of(id));
                    old_q.lemma_slot(mid.slot_of(id));
                }
                if old_q@.contains_key(id) {
                    old_q.lemma_slot(old_q.slot_of(id));
                    mid.lemma_slot(old_q.slot_of(id));
                }
            }
            assert forall|id: usize| mid@.contains_key(id) implies #[trigger] mid@[id] == old_q@.insert(cursor_id, old_q@[cursor_id].drop_first())[id] by {
                let k = mid.slot_of(id);
                mid.lemma_slot(k);
                old_q.lemma_slot(k);
                if k == i {
                    assert(mid@[id] =~= old_q@[cursor_id].drop_first());
                }
            }
            assert(mid@ =~= old_q@.insert(cursor_id, old_q@[cursor_id].drop_first()));
        }
        if pos + 1 > 1 {
            proof {
                let k = choose|k: int| 0 <= k < old_q.cursors@.len() && old_q.cursors@[k].1 == 0;
                assert(k != i);
                assert(self.cursors@[k].1 == 0);
            }
            return true;
        }
        let mut all_moved = true;
        let mut j: usize = 0;
        while j < self.cursors.len()
            invariant
                *self == mid,
                j <= self.cursors@.len(),
                all_moved == (forall|k: int| 0 <= k < j ==> self.cursors@[k].1 > 0),
            decreases self.cursors@.len() - j,
        {
            if self.cursors[j].1 == 0 {
                all_moved = false;
            }
            j = j + 1;
        }
        if all_moved {
            let mut j: usize = 0;
            while j < self.cursors.len()
                invariant
                    self.held == mid.held,
                    self.next_cursor_id == mid.next_cursor_id,
                    self.cursors@.len() == mid.cursors@.len(),
                    j <= self.cursors@.len(),
                    forall|k: int| 0 <= k < mid.cursors@.len() ==> mid.cursors@[k].1 > 0,
                    forall|k: int| 0 <= k < j ==> self.cursors@[k] == (mid.cursors@[k].0, (mid.cursors@[k].1 - 1) as usize),
                    forall|k: int| j <= k < self.cursors@.len() ==> self.cursors@[k] == mid.cursors@[k],
                decreases self.cursors@.len() - j,
            {
                let (id, p) = self.cursors[j];
                assert(mid.cursors@[j as int].1 > 0);
                self.cursors.set(j, (id, p - 1));
                j = j + 1;
            }
            self.held.pop_front();
            proof {
                assert(self.cursors@[i as int].1 == 0);
                assert forall|id: usize| #[trigger] self@.contains_key(id) == mid@.contains_key(id) by {
                    if self@.contains_key(id) {
                        self.lemma_slot(self.slot_of(id));
                        mid.lemma_slot(self.slot_of(id));
                    }
                    if mid@.contains_key(id) {
                        mid.lemma_slot(mid.slot_of(id));
                        self.lemma_slot(mid.slot_of(id));
                    }
                }
                assert forall|id: usize| self@.contains_key(id) implies #[trigger] self@[id] == mid@[id] by {
                    let k = self.slot_of(id);
                    self.lemma_slot(k);
                    mid.lemma_slot(k);
                    assert(self@[id] =~= mid@[id]);
                }
                assert(self@ =~= mid@);
            }
        } else {
            proof {
                let k = choose|k: int| 0 <= k < self.cursors@.len() && !(self.cursors@[k].1 > 0);
                assert(self.cursors@[k].1 == 0);
            }
        }
        true
    }

    /// Removes a cursor, first acknowledging everything it has not read,
    /// so that it holds no message back.
    pub fn unsubscribe(&mut self, cursor_id: usize)
        requires
            old(self).wf(),
            old(self)@.contains_key(cursor_id),
        ensures
            final(self).wf(),
            final(self)@ == old(self)@.remove(cursor_id),
            final(self)@ == after(old(self)@, QueueEvent::<T>::Unsubscribe(cursor_id)),
            final(self).next_id() == old(self).next_id(),
    {
        let ghost old_q = *self;
        while self.ack(cursor_id)
            invariant
                self.wf(),
                self@.contains_key(cursor_id),
                self@.remove(cursor_id) == old_q@.remove(cursor_id),
                self.next_id() == old_q.next_id(),
            decreases self@[cursor_id].len(),
        {
            proof {
                assert(self@.remove(cursor_id) =~= old_q@.remove(cursor_id));
            }
        }
        let ghost caught_up = *self;
        let i = self.slot(cursor_id);
        proof {
            caught_up.lemma_slot(i as int);
            assert(self.cursors@[i as int].1 == self.held@.len());
        }
        self.cursors.remove(i);
        proof {
            let n = caught_up.cursors@.len() as int;
            assert forall|k: int| 0 <= k < self.cursors@.len() implies #[trigger] self.cursors@[k] == caught_up.cursors@[if k < i { k } else { k + 1 }] by {}
            if self.cursors@.len() > 0 && self.held@.len() > 0 {
                let k = choose|k: int| 0 <= k < n && caught_up.cursors@[k].1 == 0;
                assert(k != i);
                let k2 = if k < i { k } else { k - 1 };
                assert(self.cursors@[k2].1 == 0);
            }
            if self.cursors@.len() > 0 && self.held@.len() == 0 {
                assert(self.cursors@[0].1 == 0);
            }
            assert(self.wf());
            assert forall|id: usize| #[trigger] self@.contains_key(id) == caught_up@.remove(cursor_id).contains_key(id) by {
                if self@.contains_key(id) {
                    let k = self.slot_of(id);
                    self.lemma_slot(k);
                    let k2 = if k < i { k } else { k + 1 };
                    caught_up.lemma_slot(k2);
                }
                if caught_up@.remove(cursor_id).contains_key(id) {
                    let k = caught_up.slot_of(id);
                    caught_up.lemma_slot(k);
                    assert(k != i);
                    let k2 = if k < i { k } else { k - 1 };
                    self.lemma_slot(k2);
                }
            }
            assert forall|id: usize| self@.contains_key(id) implies #[trigger] self@[id] == caught_up@.remove(cursor_id)[id] by {
                let k = self.slot_of(id);
                self.lemma_slot(k);
                let k2 = if k < i { k } else { k + 1 };
                caught_up.lemma_slot(k2);
            }
            assert(self@ =~= caught_up@.remove(cursor_id));
            assert(caught_up@.remove(cursor_id) =~= old_q@.remove(cursor_id));
        }
    }

    /// The id that the next `subscribe` hands out.
    pub fn next_cursor_id(&self) -> (r: usize)
        ensures
            r == self.next_id(),
    {
        self.next_cursor_id
    }

    /// How many messages are stored right now.
    pub fn held_len(&self) -> (r: usize)
        ensures
            r == self.retained(),
    {
        self.held.len()
    }

    /// Stored messages are bounded by what the slowest live cursor still has
    /// to read, and equal to it: nothing is kept that no cursor needs.
    pub proof fn lemma_retains_only_needed(&self)
        requires
            self.wf(),
        ensures
            self.retains_only_needed(),
    {
        assert forall|c: usize| self@.contains_key(c) implies self@[c].len() <= self.retained() by {
            self.lemma_slot(self.slot_of(c));
        }
        if self.cursors@.len() == 0 {
            assert forall|c: usize| !self@.contains_key(c) by {
                self.lemma_no_slot(c);
            }
        } else {
            let k = choose|k: int| 0 <= k < self.cursors@.len() && self.cursors@[k].1 == 0;
            self.lemma_slot(k);
            assert(self@.dom().contains(self.cursors@[k].0));
        }
    }
}

/// One operation on a queue, with the cursor id it concerns (for `Subscribe`,
/// the id it handed out).
pub enum QueueEvent<T> {
    Write(T),
    Subscribe(usize),
    Ack(usize),
    Unsubscribe(usize),
}

/// What an operation does to the unread messages of every cursor.
pub open spec fn after<T>(m: Map<usize, Seq<T>>, e: QueueEvent<T>) -> Map<usize, Seq<T>> {
    match e {
        QueueEvent::Write(v) => m.map_values(|s: Seq<T>| s.push(v)),
        QueueEvent::Subscribe(id) => m.insert(id, Seq::<T>::empty()),
        QueueEvent::Ack(id) => if m.contains_key(id) && m[id].len() > 0 {
            m.insert(id, m[id].drop_first())
        } else {
            m
        },
        QueueEvent::Unsubscribe(id) => m.remove(id),
    }
}

/// The unread messages of every cursor after a run of operations.
pub open spec fn run<T>(m: Map<usize, Seq<T>>, events: Seq<QueueEvent<T>>) -> Map<usize, Seq<T>>
    decreases events.len(),
{
    if events.len() == 0 {
        m
    } else {
        after(run(m, events.drop_last()), events.last())
    }
}

/// The values written during a run, in order.
pub open spec fn written<T>(events: Seq<QueueEvent<T>>) -> Seq<T>
    decreases events.len(),
{
    if events.len() == 0 {
        Seq::empty()
    } else {
        match events.last() {
            QueueEvent::Write(v) => written(events.drop_last()).push(v),
            _ => written(events.drop_last()),
        }
    }
}

/// The messages that cursor `c` acknowledged during a run, in order.
pub open spec fn acknowledged<T>(m: Map<usize, Seq<T>>, events: Seq<QueueEvent<T>>, c: usize) -> Seq<T>
    decreases events.len(),
{
    if events.len() == 0 {
        Seq::empty()
    } else {
        let before = run(m, events.drop_last());
        let seen = acknowledged(m, events.drop_last(), c);
        match events.last() {
            QueueEvent::Ack(id) => if id == c && before.contains_key(c) && before[c].len() > 0 {
                seen.push(before[c][0])
            } else {
                seen
            },
            _ => seen,
        }
    }
}

/// A cursor subscribed at the start of a run, and neither unsubscribed nor
/// handed out again during it, has acknowledged and still holds exactly the
/// values written during the run: in order, none twice, none missing.
pub proof fn lemma_cursor_sees_every_later_write<T>(
    m: Map<usize, Seq<T>>,
    events: Seq<QueueEvent<T>>,
    c: usize,
)
    requires
        events.len() > 0,
        events[0] == QueueEvent::<T>::Subscribe(c),
        forall|i: int| 0 < i < events.len() ==> events[i] != QueueEvent::<T>::Subscribe(c)
            && events[i] != QueueEvent::<T>::Unsubscribe(c),
    ensures
        run(m, events).contains_key(c),
        acknowledged(m, events, c) + run(m, events)[c] == written(events),
    decreases events.len(),
{
    let before = run(m, events.drop_last());
    if events.len() == 1 {
        assert(events.drop_last().len() == 0);
        assert(events.last() == QueueEvent::<T>::Subscribe(c));
        assert(run(m, events.drop_last()) == m);
        assert(acknowledged(m, events.drop_last(), c) == Seq::<T>::empty());
        assert(written(events.drop_last()) == Seq::<T>::empty());
        assert(run(m, events) == m.insert(c, Seq::<T>::empty()));
        assert(acknowledged(m, events, c) + run(m, events)[c] =~= written(events));
    } else {
        let prefix = events.drop_last();
        assert forall|i: int| 0 < i < prefix.len() implies prefix[i] != QueueEvent::<T>::Subscribe(c)
            && prefix[i] != QueueEvent::<T>::Unsubscribe(c) by {
            assert(prefix[i] == events[i]);
        }
        lemma_cursor_sees_every_later_write(m, prefix, c);
        let e = events.last();
        assert(e == events[events.len() - 1]);
        match e {
            QueueEvent::Write(v) => {
                assert(run(m, events)[c] == before[c].push(v));
                assert(acknowledged(m, events, c) + run(m, events)[c] =~= written(events));
            },
            QueueEvent::Subscribe(id) => {
                assert(id != c);
                assert(acknowledged(m, events, c) + run(m, events)[c] =~= written(events));
            },
            QueueEvent::Ack(id) => {
                if id == c && before[c].len() > 0 {
                    assert(acknowledged(m, events, c) + run(m, events)[c] =~= acknowledged(m, prefix, c)
                        + before[c]);
                } else {
                    assert(acknowledged(m, events, c) + run(m, events)[c] =~= written(events));
                }
            },
            QueueEvent::Unsubscribe(id) => {
                assert(id != c);
                assert(acknowledged(m, events, c) + run(m, events)[c] =~= written(events));
            },
        }
    }
}

/// After a cursor is removed, what stays stored is exactly what the remaining
/// cursors still have to read: nothing is kept for the removed one alone.
pub proof fn lemma_unsubscribe_releases<T>(
    before: SubscriberQueue<T>,
    after: SubscriberQueue<T>,
    cursor_id: usize,
)
    requires
        before.wf(),
        after.wf(),
        before@.contains_key(cursor_id),
        after@ == before@.remove(cursor_id),
    ensures
        forall|c: usize| #[trigger] before@.contains_key(c) && c != cursor_id
            ==> before@[c].len() <= after.retained(),
        after.retained() == 0 || exists|c: usize|
            before@.contains_key(c) && c != cursor_id && before@[c].len() == after.retained(),
{
    after.lemma_retains_only_needed();
    assert forall|c: usize| #[trigger] before@.contains_key(c) && c != cursor_id
        implies before@[c].len() <= after.retained() by {
        assert(after@.contains_key(c));
    }
    if after.retained() != 0 {
        let c = choose|c: usize| after@.contains_key(c) && after@[c].len() == after.retained();
        assert(before@.contains_key(c) && c != cursor_id);
    }
}

} // verus!
