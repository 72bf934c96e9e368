//! The registry of clients that have an outbound delivery channel.
//!
//! The channels themselves live with whoever performs the sends; the
//! registry records which ids have one, so that a message to an id without
//! a channel is skipped, and a channel found closed is forgotten.

use crate::queue::Id;
use vstd::prelude::*;

verus! {

/// The ids that have an outbound channel.
pub struct Notifier {
    registered: Vec<String>,
}

impl View for Notifier {
    type V = Set<Id>;

    closed spec fn view(&self) -> Set<Id> {
        Set::new(|id: Id| exists|i: int| self.holds_at(i, id))
    }
}

impl Notifier {
    /// Slot `i` holds `id`.
    spec fn holds_at(&self, i: int, id: Id) -> bool {
        0 <= i < self.registered@.len() && self.registered@[i]@ == id
    }

    /// No id is registered twice.
    pub closed spec fn wf(&self) -> bool {
        forall|i: int, j: int|
            0 <= i < self.registered@.len() && 0 <= j < self.registered@.len() && i != j
                ==> self.registered@[i]@ != self.registered@[j]@
    }

    /// A registry without channels.
    pub fn new() -> (notifier: Self)
        ensures
            notifier.wf(),
            notifier@ == Set::<Id>::empty(),
    {
        let notifier = Notifier { registered: Vec::new() };
        assert(notifier@ =~= Set::<Id>::empty());
        notifier
    }

    /// The slot of `user_id`, if it is registered.
    fn find(&self, user_id: &String) -> (found: Option<usize>)
        ensures
            match found {
                Some(i) => self.holds_at(i as int, user_id@),
                None => !self@.contains(user_id@),
            },
    {
        let n = self.registered.len();
        let mut i: usize = 0;
        while i < n
            invariant
                n == self.registered@.len(),
                i <= n,
                forall|j: int| 0 <= j < i ==> !self.holds_at(j, user_id@),
            decreases n - i,
        {
            if self.registered[i] == *user_id {
                return Some(i);
            }
            i += 1;
        }
        None
    }

    /// Whether `user_id` has a channel.
    pub fn is_registered(&self, user_id: &str) -> (registered: bool)
        ensures
            registered == self@.contains(user_id@),
    {
        let id = user_id.to_owned();
        self.find(&id).is_some()
    }

    /// Records that `user_id` has a channel.
    pub fn register(&mut self, user_id: String)
        requires
            old(self).wf(),
        ensures
            final(self).wf(),
            final(self)@ == old(self)@.insert(user_id@),
    {
        let ghost id = user_id@;
        if self.find(&user_id).is_none() {
            self.registered.push(user_id);
        }
        proof {
            let before = old(self);
            assert forall|i: int, j: int|
                0 <= i < self.registered@.len() && 0 <= j < self.registered@.len() && i
                    != j implies self.registered@[i]@ != self.registered@[j]@ by {
                if i < before.registered@.len() {
                    assert(before.holds_at(i, before.registered@[i]@));
                }
                if j < before.registered@.len() {
                    assert(before.holds_at(j, before.registered@[j]@));
                }
            }
            assert forall|other: Id| self@.contains(other) <==> before@.insert(id).contains(
                other,
            ) by {
                if self@.contains(other) {
                    let i = choose|i: int| self.holds_at(i, other);
                    if i < before.registered@.len() {
                        assert(before.holds_at(i, other));
                    }
                }
                if before@.contains(other) {
                    let i = choose|i: int| before.holds_at(i, other);
                    assert(self.holds_at(i, other));
                }
                if other == id {
                    if before@.contains(id) {
                        let i = choose|i: int| before.holds_at(i, id);
                        assert(self.holds_at(i, id));
                    } else {
                        assert(self.holds_at(before.registered@.len() as int, id));
                    }
                }
            }
            assert(self@ =~= before@.insert(id));
        }
    }

    /// Forgets the channel of `user_id`, if it has one.
    pub fn unregister(&mut self, user_id: &str)
        requires
            old(self).wf(),
        ensures
            final(self).wf(),
            final(self)@ == old(self)@.remove(user_id@),
    {
        let id = user_id.to_owned();
        match self.find(&id) {
            Some(i) => {
                self.registered.remove(i);
                proof {
                    let before = old(self);
                    let at = i as int;
                    assert forall|j: int| 0 <= j < self.registered@.len() implies
                        #[trigger] self.registered@[j] == before.registered@[if j < at {
                        j
                    } else {
                        j + 1
                    }] by {}
                    assert(self.wf());
                    assert forall|other: Id| self@.contains(other) <==> before@.remove(
                        id@,
                    ).contains(other) by {
                        if self@.contains(other) {
                            let j = choose|j: int| self.holds_at(j, other);
                            let j0 = if j < at {
                                j
                            } else {
                                j + 1
                            };
                            assert(self.registered@[j] == before.registered@[j0]);
                            assert(before.holds_at(j0, other));
                        }
                        if before@.contains(other) && other != id@ {
                            let j0 = choose|j: int| before.holds_at(j, other);
                            let j = if j0 < at {
                                j0
                            } else {
                                j0 - 1
                            };
                            assert(self.registered@[j] == before.registered@[j0]);
                            assert(self.holds_at(j, other));
                        }
                    }
                    assert(self@ =~= before@.remove(id@));
                }
            },
            None => {
                assert(self@ =~= old(self)@.remove(id@));
            },
        }
    }
}

} // verus!
