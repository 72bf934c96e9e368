//! The access queue: a first-in, first-out waiting list of client ids and
//! one slot for the id that currently holds control.

use std::collections::VecDeque;
use vstd::prelude::*;

verus! {

/// A client identity as specifications see it: the characters of its id.
pub type Id = Seq<char>;

/// The mathematical content of an [`AccessQueue`].
pub struct QueueView {
    /// The waiting ids, head first.
    pub waiting: Seq<Id>,
    /// The id that holds control, if any.
    pub active: Option<Id>,
}

impl QueueView {
    /// The queue with nobody waiting and nobody active.
    pub open spec fn empty() -> QueueView {
        QueueView { waiting: Seq::empty(), active: None }
    }

    /// No id waits twice, and the active id does not wait.
    pub open spec fn wf(self) -> bool {
        &&& self.waiting.no_duplicates()
        &&& self.active matches Some(a) ==> !self.waiting.contains(a)
    }

    /// Whether `id` is waiting or active.
    pub open spec fn knows(self, id: Id) -> bool {
        self.waiting.contains(id) || self.active == Some(id)
    }

    /// The 1-based rank of `id` among the waiting ids, `None` if it does
    /// not wait.
    pub open spec fn position(self, id: Id) -> Option<int> {
        if self.waiting.contains(id) {
            Some(self.waiting.index_of(id) + 1)
        } else {
            None
        }
    }

    /// The queue after `id` asked to join: appended unless already known.
    pub open spec fn add_user(self, id: Id) -> QueueView {
        if self.knows(id) {
            self
        } else {
            QueueView { waiting: self.waiting.push(id), active: self.active }
        }
    }

    /// The queue after `id` left: no longer waiting, and no longer active
    /// if it was.
    pub open spec fn remove_user(self, id: Id) -> QueueView {
        QueueView {
            waiting: self.waiting.filter(other_than(id)),
            active: if self.active == Some(id) {
                None
            } else {
                self.active
            },
        }
    }

    /// The queue after its head, if any, moved into the active slot.
    pub open spec fn next_user(self) -> QueueView {
        if self.waiting.len() > 0 {
            QueueView { waiting: self.waiting.drop_first(), active: Some(self.waiting[0]) }
        } else {
            QueueView { waiting: self.waiting, active: None }
        }
    }

    /// The queue with its active slot cleared.
    pub open spec fn deactivate(self) -> QueueView {
        QueueView { waiting: self.waiting, active: None }
    }

    /// The queue after each of `ids` asked to join, in order.
    pub open spec fn add_all(self, ids: Seq<Id>) -> QueueView
        decreases ids.len(),
    {
        if ids.len() == 0 {
            self
        } else {
            self.add_all(ids.drop_last()).add_user(ids.last())
        }
    }
}

/// The predicate that holds of every id but `id`.
pub open spec fn other_than(id: Id) -> spec_fn(Id) -> bool {
    |w: Id| w != id
}

/// The ids of a sequence of strings.
pub open spec fn ids_of(names: Seq<String>) -> Seq<Id> {
    names.map_values(|name: String| name@)
}

/// In a sequence without duplicates, dropping the one occurrence of a value
/// is the same as keeping everything else.
pub proof fn lemma_remove_is_filter(s: Seq<Id>, i: int)
    requires
        s.no_duplicates(),
        0 <= i < s.len(),
    ensures
        s.remove(i) == s.filter(other_than(s[i])),
    decreases s.len(),
{
    let id = s[i];
    let keep = other_than(id);
    reveal(Seq::filter);
    if i == s.len() - 1 {
        lemma_filter_keeps_all(s.drop_last(), id);
        assert(s.remove(i) =~= s.drop_last());
    } else {
        let front = s.drop_last();
        lemma_remove_is_filter(front, i);
        assert(front[i] == id);
        assert(s.remove(i) =~= front.remove(i).push(s.last()));
        assert(keep(s.last()));
    }
}

/// Filtering out a value that does not occur changes nothing.
pub proof fn lemma_filter_keeps_all(s: Seq<Id>, id: Id)
    requires
        !s.contains(id),
    ensures
        s.filter(other_than(id)) == s,
    decreases s.len(),
{
    let keep = other_than(id);
    reveal(Seq::filter);
    if s.len() > 0 {
        let front = s.drop_last();
        assert forall|j: int| 0 <= j < front.len() implies front[j] != id by {
            assert(s[j] == front[j]);
        }
        lemma_filter_keeps_all(front, id);
        assert(s[s.len() - 1] != id);
        assert(front.push(s.last()) =~= s);
    }
}

/// First-in, first-out waiting list with one active holder.
#[derive(Debug)]
pub struct AccessQueue {
    queue: VecDeque<String>,
    active_user: Option<String>,
}

impl View for AccessQueue {
    type V = QueueView;

    closed spec fn view(&self) -> QueueView {
        QueueView {
            waiting: ids_of(self.queue@),
            active: match self.active_user {
                Some(a) => Some(a@),
                None => None,
            },
        }
    }
}

impl Default for AccessQueue {
    fn default() -> (queue: Self)
        ensures
            queue@ == QueueView::empty(),
            queue.wf(),
    {
        AccessQueue::new()
    }
}

impl AccessQueue {
    /// The invariant of the queue: see [`QueueView::wf`].
    pub open spec fn wf(&self) -> bool {
        self@.wf()
    }

    /// An empty queue with no active holder.
    pub fn new() -> (queue: Self)
        ensures
            queue@ == QueueView::empty(),
            queue.wf(),
    {
        let queue = AccessQueue { queue: VecDeque::new(), active_user: None };
        assert(queue@.waiting =~= Seq::empty());
        queue
    }

    /// The index of `user_id` in the waiting list, if it waits.
    fn find(&self, user_id: &String) -> (found: Option<usize>)
        ensures
            match found {
                Some(i) => i < self@.waiting.len() && self@.waiting[i as int] == user_id@,
                None => !self@.waiting.contains(user_id@),
            },
    {
        let n = self.queue.len();
        let mut i: usize = 0;
        while i < n
            invariant
                n == self.queue@.len(),
                i <= n,
                forall|j: int| 0 <= j < i ==> self@.waiting[j] != user_id@,
            decreases n - i,
        {
            if self.queue[i] == *user_id {
                return Some(i);
            }
            i += 1;
        }
        None
    }

    /// Whether `user_id` holds the active slot.
    fn is_active(&self, user_id: &String) -> (held: bool)
        ensures
            held == (self@.active == Some(user_id@)),
    {
        match &self.active_user {
            Some(a) => *a == *user_id,
            None => false,
        }
    }

    /// Appends `user_id` to the waiting list unless it already waits or is
    /// the active holder, and returns the length of the waiting list.
    pub fn add_user(&mut self, user_id: String) -> (len: usize)
        requires
            old(self).wf(),
        ensures
            final(self).wf(),
            final(self)@ == old(self)@.add_user(user_id@),
            len == final(self)@.waiting.len(),
    {
        if self.find(&user_id).is_none() && !self.is_active(&user_id) {
            proof {
                lemma_add_user(self@, user_id@);
                assert(ids_of(self.queue@.push(user_id)) =~= self@.waiting.push(user_id@));
            }
            self.queue.push_back(user_id);
        }
        self.queue.len()
    }

    /// Removes `user_id` from the waiting list, and clears the active slot
    /// if `user_id` holds it.
    pub fn remove_user(&mut self, user_id: &str)
        requires
            old(self).wf(),
        ensures
            final(self).wf(),
            final(self)@ == old(self)@.remove_user(user_id@),
            old(self)@.active == Some(user_id@) ==> final(self)@.active is None,
            old(self)@.active != Some(user_id@) ==> final(self)@.active == old(self)@.active,
    {
        let id = user_id.to_owned();
        match self.find(&id) {
            Some(i) => {
                proof {
                    lemma_remove_is_filter(self@.waiting, i as int);
                    assert(ids_of(self.queue@.remove(i as int)) =~= self@.waiting.remove(
                        i as int,
                    ));
                }
                self.queue.remove(i);
            },
            None => {
                proof {
                    lemma_filter_keeps_all(self@.waiting, id@);
                }
            },
        }
        if self.is_active(&id) {
            self.deactivate();
        }
        proof {
            lemma_remove_user(old(self)@, id@);
        }
    }

    /// Moves the head of the waiting list into the active slot and returns
    /// it; with nobody waiting, clears the active slot and returns `None`.
    pub fn next_user(&mut self) -> (next: Option<String>)
        requires
            old(self).wf(),
        ensures
            final(self).wf(),
            final(self)@ == old(self)@.next_user(),
            match next {
                Some(id) => final(self)@.active == Some(id@),
                None => final(self)@.active is None,
            },
            next matches Some(id) ==> old(self)@.active != Some(id@)
                && !final(self)@.waiting.contains(id@),
    {
        let ghost before = self@;
        self.active_user = self.queue.pop_front();
        proof {
            lemma_next_user(before);
            if before.waiting.len() > 0 {
                assert(self@.waiting =~= before.waiting.drop_first());
            } else {
                assert(self@.waiting =~= before.waiting);
            }
        }
        self.active_user.clone()
    }

    /// The 1-based rank of `user_id` in the waiting list; `None` for the
    /// active holder and for ids the queue does not know.
    pub fn position(&self, user_id: &str) -> (rank: Option<usize>)
        requires
            self.wf(),
        ensures
            match rank {
                Some(p) => self@.position(user_id@) == Some(p as int),
                None => self@.position(user_id@) is None,
            },
            rank matches Some(p) ==> 1 <= p <= self@.waiting.len() && self@.waiting[p - 1]
                == user_id@,
            rank is None <==> !self@.waiting.contains(user_id@),
    {
        let id = user_id.to_owned();
        let n = self.queue.len();
        match self.find(&id) {
            Some(i) => {
                assert(self@.waiting.contains(id@));
                assert(i < n);
                Some(i + 1)
            },
            None => None,
        }
    }

    /// The id that holds control, if any.
    pub fn active(&self) -> (holder: Option<&String>)
        ensures
            match holder {
                Some(id) => self@.active == Some(id@),
                None => self@.active is None,
            },
    {
        self.active_user.as_ref()
    }

    /// Clears the active slot.
    pub fn deactivate(&mut self)
        ensures
            final(self)@ == old(self)@.deactivate(),
            old(self).wf() ==> final(self).wf(),
    {
        self.active_user = None
    }

    /// The waiting ids, head first.
    pub fn waiting_list(&self) -> (list: Vec<String>)
        ensures
            ids_of(list@) == self@.waiting,
    {
        let n = self.queue.len();
        let mut list: Vec<String> = Vec::new();
        let mut i: usize = 0;
        while i < n
            invariant
                n == self.queue@.len(),
                i <= n,
                list@.len() == i,
                forall|j: int| 0 <= j < i ==> list@[j]@ == self.queue@[j]@,
            decreases n - i,
        {
            list.push(self.queue[i].clone());
            i += 1;
        }
        assert(ids_of(list@) =~= self@.waiting);
        list
    }
}

/// Removing an id from a well-formed waiting list leaves it without
/// duplicates and without that id.
pub proof fn lemma_filter_preserves_wf(s: Seq<Id>, id: Id)
    requires
        s.no_duplicates(),
    ensures
        s.filter(other_than(id)).no_duplicates(),
        !s.filter(other_than(id)).contains(id),
        forall|other: Id|
            other != id ==> (s.filter(other_than(id)).contains(other) <==> s.contains(other)),
{
    let keep = other_than(id);
    let kept = s.filter(keep);
    if s.contains(id) {
        let i = s.index_of(id);
        lemma_remove_is_filter(s, i);
        assert(kept =~= s.remove(i));
        assert forall|a: int, b: int|
            0 <= a < kept.len() && 0 <= b < kept.len() && a != b implies kept[a] != kept[b] by {
            let a0 = if a < i { a } else { a + 1 };
            let b0 = if b < i { b } else { b + 1 };
            assert(kept[a] == s[a0]);
            assert(kept[b] == s[b0]);
        }
        assert forall|a: int| 0 <= a < kept.len() implies kept[a] != id by {
            let a0 = if a < i { a } else { a + 1 };
            assert(kept[a] == s[a0]);
        }
        assert forall|other: Id| other != id implies (kept.contains(other) <==> s.contains(
            other,
        )) by {
            if kept.contains(other) {
                let a = kept.index_of(other);
                let a0 = if a < i { a } else { a + 1 };
                assert(kept[a] == s[a0]);
            }
            if s.contains(other) {
                let b = s.index_of(other);
                let b1 = if b < i { b } else { b - 1 };
                assert(kept[b1] == s[b]);
            }
        }
    } else {
        lemma_filter_keeps_all(s, id);
    }
}

/// Joining keeps the queue well-formed, leaves the active slot alone, and
/// moves nobody who already waits.
pub proof fn lemma_add_user(q: QueueView, id: Id)
    requires
        q.wf(),
    ensures
        q.add_user(id).wf(),
        q.add_user(id).active == q.active,
        q.waiting.is_prefix_of(q.add_user(id).waiting),
        forall|other: Id| #[trigger] q.add_user(id).knows(other) <==> q.knows(other) || other == id,
{
    let r = q.add_user(id);
    if !q.knows(id) {
        let after = q.waiting.push(id);
        assert forall|i: int, j: int|
            0 <= i < after.len() && 0 <= j < after.len() && i != j implies after[i]
            != after[j] by {
            if i < q.waiting.len() {
                assert(q.waiting[i] == after[i]);
            }
            if j < q.waiting.len() {
                assert(q.waiting[j] == after[j]);
            }
        }
        assert forall|k: int| 0 <= k < after.len() implies Some(after[k]) != q.active by {
            if k < q.waiting.len() {
                assert(q.waiting[k] == after[k]);
            }
        }
        assert(after[after.len() - 1] == id);
        assert forall|other: Id| r.knows(other) <==> q.knows(other) || other == id by {
            if q.waiting.contains(other) {
                let k = q.waiting.index_of(other);
                assert(after[k] == other);
            }
            if after.contains(other) {
                let k = after.index_of(other);
                if k < q.waiting.len() {
                    assert(q.waiting[k] == other);
                }
            }
        }
    }
}

/// Leaving keeps the queue well-formed. It clears the active slot exactly
/// if the one who leaves holds it, and whoever else waits keeps waiting, in
/// the same order.
pub proof fn lemma_remove_user(q: QueueView, id: Id)
    requires
        q.wf(),
    ensures
        q.remove_user(id).wf(),
        !q.remove_user(id).knows(id),
        q.active == Some(id) ==> q.remove_user(id).active is None,
        q.active != Some(id) ==> q.remove_user(id).active == q.active,
        forall|other: Id|
            other != id ==> (q.remove_user(id).waiting.contains(other) <==> q.waiting.contains(
                other,
            )),
{
    lemma_filter_preserves_wf(q.waiting, id);
}

/// Promotion keeps the queue well-formed; whoever it promotes did not hold
/// the active slot before and no longer waits.
pub proof fn lemma_next_user(q: QueueView)
    requires
        q.wf(),
    ensures
        q.next_user().wf(),
        q.next_user().active matches Some(id) ==> q.active != Some(id) && q.waiting[0] == id
            && !q.next_user().waiting.contains(id),
        q.waiting.len() == 0 ==> q.next_user().active is None,
{
    if q.waiting.len() > 0 {
        let after = q.waiting.drop_first();
        assert forall|i: int, j: int|
            0 <= i < after.len() && 0 <= j < after.len() && i != j implies after[i]
            != after[j] by {
            assert(after[i] == q.waiting[i + 1]);
            assert(after[j] == q.waiting[j + 1]);
        }
        assert forall|k: int| 0 <= k < after.len() implies after[k] != q.waiting[0] by {
            assert(after[k] == q.waiting[k + 1]);
        }
        assert(q.waiting.contains(q.waiting[0]));
    }
}

/// In a well-formed queue the positions are exactly the ranks 1 to N of
/// the N waiting ids, head first; the active holder and ids the queue does
/// not know have none.
pub proof fn lemma_positions_dense(q: QueueView)
    requires
        q.wf(),
    ensures
        q.active matches Some(holder) ==> q.position(holder) is None,
        forall|i: int|
            0 <= i < q.waiting.len() ==> #[trigger] q.position(q.waiting[i]) == Some(i + 1),
        forall|id: Id| #[trigger] q.position(id) is Some <==> q.waiting.contains(id),
        forall|id: Id| (#[trigger] q.position(id)) matches Some(p) ==> 1 <= p <= q.waiting.len()
            && q.waiting[p - 1] == id,
{
    assert forall|i: int| 0 <= i < q.waiting.len() implies #[trigger] q.position(q.waiting[i])
        == Some(i + 1) by {
        assert(q.waiting.contains(q.waiting[i]));
    }
}

/// After any sequence of requests to join, from any well-formed queue: the
/// queue is well-formed, so that its positions are dense (see
/// [`lemma_positions_dense`]); the active slot is as it was; and the order
/// is that of joining: the waiting list after the first `k` requests is a
/// prefix of the final one, for every `k`.
pub proof fn lemma_add_all(q: QueueView, ids: Seq<Id>)
    requires
        q.wf(),
    ensures
        q.add_all(ids).wf(),
        q.add_all(ids).active == q.active,
        q.add_all(ids).active matches Some(holder) ==> q.add_all(ids).position(holder) is None,
        forall|i: int|
            0 <= i < q.add_all(ids).waiting.len() ==> #[trigger] q.add_all(ids).position(
                q.add_all(ids).waiting[i],
            ) == Some(i + 1),
        forall|id: Id| #[trigger]
            q.add_all(ids).position(id) is Some <==> q.add_all(ids).waiting.contains(id),
        forall|id: Id| #[trigger]
            q.add_all(ids).knows(id) <==> q.knows(id) || ids.contains(id),
        forall|k: int|
            0 <= k <= ids.len() ==> (#[trigger] q.add_all(ids.take(k))).waiting.is_prefix_of(
                q.add_all(ids).waiting,
            ),
    decreases ids.len(),
{
    let r = q.add_all(ids);
    if ids.len() == 0 {
        assert forall|k: int| 0 <= k <= ids.len() implies (#[trigger] q.add_all(
            ids.take(k),
        )).waiting.is_prefix_of(r.waiting) by {
            assert(ids.take(k) =~= ids);
        }
        assert forall|id: Id| #[trigger] r.knows(id) <==> q.knows(id) || ids.contains(id) by {}
    } else {
        let front = ids.drop_last();
        let mid = q.add_all(front);
        lemma_add_all(q, front);
        lemma_add_user(mid, ids.last());
        assert forall|k: int| 0 <= k <= ids.len() implies (#[trigger] q.add_all(
            ids.take(k),
        )).waiting.is_prefix_of(r.waiting) by {
            if k == ids.len() {
                assert(ids.take(k) =~= ids);
            } else {
                assert(ids.take(k) =~= front.take(k));
                let early = q.add_all(front.take(k)).waiting;
                assert(early.is_prefix_of(mid.waiting));
                assert(mid.waiting.is_prefix_of(r.waiting));
                assert(early =~= r.waiting.subrange(0, early.len() as int)) by {
                    assert forall|j: int| 0 <= j < early.len() implies early[j]
                        == r.waiting[j] by {
                        assert(early[j] == mid.waiting[j]);
                        assert(mid.waiting[j] == r.waiting[j]);
                    }
                }
            }
        }
        assert forall|id: Id| #[trigger] r.knows(id) <==> q.knows(id) || ids.contains(id) by {
            assert(mid.knows(id) <==> q.knows(id) || front.contains(id));
            assert(mid.add_user(ids.last()).knows(id) <==> mid.knows(id) || id == ids.last());
            if ids.contains(id) {
                let k = ids.index_of(id);
                if k < front.len() {
                    assert(front[k] == id);
                }
            }
            if front.contains(id) {
                let k = front.index_of(id);
                assert(ids[k] == id);
            }
            assert(ids[ids.len() - 1] == ids.last());
        }
    }
    lemma_positions_dense(r);
}

/// Asking to join twice is the same as asking once, and so is leaving
/// twice.
pub proof fn lemma_join_and_leave_idempotent(q: QueueView, id: Id)
    requires
        q.wf(),
    ensures
        q.add_user(id).add_user(id) == q.add_user(id),
        q.remove_user(id).remove_user(id) == q.remove_user(id),
{
    lemma_add_user(q, id);
    assert(q.add_user(id).knows(id));
    lemma_remove_user(q, id);
    lemma_filter_keeps_all(q.remove_user(id).waiting, id);
}

} // verus!
