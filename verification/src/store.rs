//! The session store: the authoritative map from the ids of the connected
//! clients to their sessions.

use crate::queue::Id;
use crate::session::SessionView;
use crate::session::UserSession;
use vstd::prelude::*;

verus! {

/// Whether the holder `id` has lost its claim at `now`: its session is gone
/// from `users`, or its control has expired.
pub open spec fn holder_expired(users: Map<Id, SessionView>, id: Id, now: int) -> bool {
    !users.dom().contains(id) || users[id].is_control_expired(now)
}

/// A holder without a session has lost its claim, at any time; a holder
/// with a session has lost it exactly if that session's control has
/// expired.
pub proof fn lemma_holder_expired(users: Map<Id, SessionView>, id: Id, now: int)
    ensures
        !users.dom().contains(id) ==> holder_expired(users, id, now),
        users.dom().contains(id) ==> holder_expired(users, id, now)
            == users[id].is_control_expired(now),
{
}

/// At most one session per id.
pub struct SessionStore {
    sessions: Vec<UserSession>,
}

impl View for SessionStore {
    type V = Map<Id, SessionView>;

    closed spec fn view(&self) -> Map<Id, SessionView> {
        Map::new(
            |id: Id| self.slot_of(id) is Some,
            |id: Id| self.sessions@[self.slot_of(id).unwrap()]@,
        )
    }
}

impl SessionStore {
    /// The slot that holds the session of `id`, if there is one.
    spec fn slot_of(&self, id: Id) -> Option<int> {
        if exists|i: int| self.holds_at(i, id) {
            Some(choose|i: int| self.holds_at(i, id))
        } else {
            None
        }
    }

    /// Slot `i` holds the session of `id`.
    spec fn holds_at(&self, i: int, id: Id) -> bool {
        0 <= i < self.sessions@.len() && self.sessions@[i].id@ == id
    }

    /// No two sessions share an id.
    pub closed spec fn wf(&self) -> bool {
        forall|i: int, j: int|
            0 <= i < self.sessions@.len() && 0 <= j < self.sessions@.len() && i != j
                ==> self.sessions@[i].id@ != self.sessions@[j].id@
    }

    /// Every session is stored under its own id.
    pub proof fn lemma_keyed_by_id(&self)
        ensures
            forall|id: Id| #[trigger] self@.dom().contains(id) ==> self@[id].id == id,
    {
    }

    /// In a well-formed store, slot `i` is where the id of its session
    /// leads.
    proof fn lemma_slot(&self, i: int)
        requires
            self.wf(),
            0 <= i < self.sessions@.len(),
        ensures
            self.slot_of(self.sessions@[i].id@) == Some(i),
            self@.dom().contains(self.sessions@[i].id@),
            self@[self.sessions@[i].id@] == self.sessions@[i]@,
    {
        assert(self.holds_at(i, self.sessions@[i].id@));
    }

    /// A store without sessions.
    pub fn new() -> (store: Self)
        ensures
            store.wf(),
            store@ == Map::<Id, SessionView>::empty(),
    {
        let store = SessionStore { sessions: Vec::new() };
        assert(store@ =~= Map::<Id, SessionView>::empty());
        store
    }

    /// The slot of the session of `user_id`, if the store has one.
    fn find(&self, user_id: &String) -> (found: Option<usize>)
        requires
            self.wf(),
        ensures
            match found {
                Some(i) => self.holds_at(i as int, user_id@) && self.slot_of(user_id@) == Some(
                    i as int,
                ),
                None => self.slot_of(user_id@) is None,
            },
            found is Some <==> self@.dom().contains(user_id@),
    {
        let n = self.sessions.len();
        let mut i: usize = 0;
        while i < n
            invariant
                self.wf(),
                n == self.sessions@.len(),
                i <= n,
                forall|j: int| 0 <= j < i ==> !self.holds_at(j, user_id@),
            decreases n - i,
        {
            if self.sessions[i].id == *user_id {
                proof {
                    self.lemma_slot(i as int);
                }
                return Some(i);
            }
            i += 1;
        }
        None
    }

    /// Stores `user` under its id, in place of any session the id had.
    pub fn add_user(&mut self, user: UserSession)
        requires
            old(self).wf(),
        ensures
            final(self).wf(),
            final(self)@ == old(self)@.insert(user@.id, user@),
    {
        let ghost entry = user@;
        let ghost slot: int;
        match self.find(&user.id) {
            Some(i) => {
                proof {
                    slot = i as int;
                }
                self.sessions[i] = user;
            },
            None => {
                proof {
                    slot = self.sessions@.len() as int;
                }
                self.sessions.push(user);
            },
        }
        proof {
            let before = old(self);
            assert(0 <= slot < self.sessions@.len() && self.sessions@[slot]@ == entry);
            assert forall|j: int| 0 <= j < before.sessions@.len() && j != slot implies
                #[trigger] self.sessions@[j] == before.sessions@[j] by {}
            assert(self.wf()) by {
                assert forall|i: int, j: int|
                    0 <= i < self.sessions@.len() && 0 <= j < self.sessions@.len() && i
                        != j implies self.sessions@[i].id@ != self.sessions@[j].id@ by {
                    if i < before.sessions@.len() {
                        assert(before.holds_at(i, before.sessions@[i].id@));
                    }
                    if j < before.sessions@.len() {
                        assert(before.holds_at(j, before.sessions@[j].id@));
                    }
                }
            }
            assert forall|id: Id| #[trigger]
                self@.dom().contains(id) <==> before@.insert(entry.id, entry).dom().contains(
                    id,
                ) by {
                if self.slot_of(id) is Some {
                    let i = self.slot_of(id).unwrap();
                    if id != entry.id {
                        assert(before.holds_at(i, id));
                    }
                }
                if before.slot_of(id) is Some {
                    let i = before.slot_of(id).unwrap();
                    assert(before.holds_at(i, id));
                    assert(self.holds_at(i, id));
                }
                if id == entry.id {
                    assert(self.holds_at(slot, id));
                }
            }
            assert forall|id: Id| #[trigger] self@.dom().contains(id) implies self@[id]
                == before@.insert(entry.id, entry)[id] by {
                let i = self.slot_of(id).unwrap();
                assert(self.holds_at(i, id));
                self.lemma_slot(i);
                if id != entry.id {
                    assert(before.holds_at(i, id));
                    before.lemma_slot(i);
                }
            }
            assert(self@ =~= before@.insert(entry.id, entry));
        }
    }

    /// The session of `user_id`, if the store has one.
    pub fn get_user(&self, user_id: &str) -> (found: Option<&UserSession>)
        requires
            self.wf(),
        ensures
            match found {
                Some(user) => self@.dom().contains(user_id@) && user@ == self@[user_id@],
                None => !self@.dom().contains(user_id@),
            },
    {
        let id = user_id.to_owned();
        match self.find(&id) {
            Some(i) => {
                proof {
                    self.lemma_slot(i as int);
                }
                Some(&self.sessions[i])
            },
            None => None,
        }
    }

    /// Drops the session of `user_id`, if the store has one.
    pub fn remove_user(&mut self, user_id: &str)
        requires
            old(self).wf(),
        ensures
            final(self).wf(),
            final(self)@ == old(self)@.remove(user_id@),
    {
        let id = user_id.to_owned();
        match self.find(&id) {
            Some(i) => {
                self.sessions.remove(i);
                proof {
                    let before = old(self);
                    let at = i as int;
                    assert forall|j: int| 0 <= j < self.sessions@.len() implies
                        #[trigger] self.sessions@[j] == before.sessions@[if j < at {
                        j
                    } else {
                        j + 1
                    }] by {}
                    assert(self.wf());
                    assert forall|other: Id| #[trigger]
                        self@.dom().contains(other) <==> before@.remove(id@).dom().contains(
                            other,
                        ) by {
                        if self.slot_of(other) is Some {
                            let j = self.slot_of(other).unwrap();
                            let j0 = if j < at {
                                j
                            } else {
                                j + 1
                            };
                            assert(self.sessions@[j] == before.sessions@[j0]);
                            assert(before.holds_at(j0, other));
                        }
                        if before.slot_of(other) is Some && other != id@ {
                            let j0 = before.slot_of(other).unwrap();
                            assert(before.holds_at(j0, other));
                            let j = if j0 < at {
                                j0
                            } else {
                                j0 - 1
                            };
                            assert(self.sessions@[j] == before.sessions@[j0]);
                            assert(self.holds_at(j, other));
                        }
                    }
                    assert forall|other: Id| #[trigger]
                        self@.dom().contains(other) implies self@[other] == before@.remove(
                        id@,
                    )[other] by {
                        let j = self.slot_of(other).unwrap();
                        let j0 = if j < at {
                            j
                        } else {
                            j + 1
                        };
                        assert(self.holds_at(j, other));
                        assert(self.sessions@[j] == before.sessions@[j0]);
                        before.lemma_slot(j0);
                    }
                    assert(self@ =~= before@.remove(id@));
                }
            },
            None => {
                assert(self@ =~= old(self)@.remove(id@));
            },
        }
    }

    /// Replaces the session in slot `i` by one with the same id.
    proof fn lemma_updated(&self, before: &SessionStore, i: int)
        requires
            before.wf(),
            0 <= i < before.sessions@.len(),
            self.sessions@.len() == before.sessions@.len(),
            self.sessions@[i]@.id == before.sessions@[i]@.id,
            forall|j: int|
                0 <= j < before.sessions@.len() && j != i ==> self.sessions@[j]
                    == before.sessions@[j],
        ensures
            self.wf(),
            self@ == before@.insert(before.sessions@[i].id@, self.sessions@[i]@),
    {
        let id = before.sessions@[i].id@;
        assert forall|a: int, b: int|
            0 <= a < self.sessions@.len() && 0 <= b < self.sessions@.len() && a
                != b implies self.sessions@[a].id@ != self.sessions@[b].id@ by {
            assert(self.sessions@[a].id@ == before.sessions@[a].id@);
            assert(self.sessions@[b].id@ == before.sessions@[b].id@);
        }
        assert forall|other: Id| #[trigger]
            self@.dom().contains(other) <==> before@.insert(id, self.sessions@[i]@).dom().contains(
                other,
            ) by {
            if self.slot_of(other) is Some {
                let j = self.slot_of(other).unwrap();
                assert(self.sessions@[j].id@ == before.sessions@[j].id@);
                assert(before.holds_at(j, other));
            }
            if before.slot_of(other) is Some {
                let j = before.slot_of(other).unwrap();
                assert(self.sessions@[j].id@ == before.sessions@[j].id@);
                assert(self.holds_at(j, other));
            }
            if other == id {
                assert(self.holds_at(i, other));
            }
        }
        assert forall|other: Id| #[trigger] self@.dom().contains(other) implies self@[other]
            == before@.insert(id, self.sessions@[i]@)[other] by {
            let j = self.slot_of(other).unwrap();
            assert(self.holds_at(j, other));
            self.lemma_slot(j);
            if j != i {
                assert(before.holds_at(j, other));
                before.lemma_slot(j);
            }
        }
        assert(self@ =~= before@.insert(id, self.sessions@[i]@));
    }

    /// Grants control to the session of `user_id`, stamped `now`, and says
    /// whether the store has such a session.
    pub fn grant_control_at(&mut self, user_id: &str, now: u64) -> (granted: bool)
        requires
            old(self).wf(),
        ensures
            final(self).wf(),
            granted == old(self)@.dom().contains(user_id@),
            final(self)@ == if granted {
                old(self)@.insert(user_id@, old(self)@[user_id@].grant_control(now))
            } else {
                old(self)@
            },
    {
        let id = user_id.to_owned();
        match self.find(&id) {
            Some(i) => {
                proof {
                    self.lemma_slot(i as int);
                }
                self.sessions[i].grant_control_at(now);
                proof {
                    self.lemma_updated(old(self), i as int);
                }
                true
            },
            None => false,
        }
    }

    /// Takes control back from the session of `user_id`, and says whether
    /// the store has such a session.
    pub fn revoke_control(&mut self, user_id: &str) -> (revoked: bool)
        requires
            old(self).wf(),
        ensures
            final(self).wf(),
            revoked == old(self)@.dom().contains(user_id@),
            final(self)@ == if revoked {
                old(self)@.insert(user_id@, old(self)@[user_id@].revoke_control())
            } else {
                old(self)@
            },
    {
        let id = user_id.to_owned();
        match self.find(&id) {
            Some(i) => {
                proof {
                    self.lemma_slot(i as int);
                }
                self.sessions[i].revoke_control();
                proof {
                    self.lemma_updated(old(self), i as int);
                }
                true
            },
            None => false,
        }
    }

    /// Stamps `now` as the last action of the session of `user_id`, and
    /// says whether the store has such a session.
    pub fn record_action_at(&mut self, user_id: &str, now: u64) -> (recorded: bool)
        requires
            old(self).wf(),
        ensures
            final(self).wf(),
            recorded == old(self)@.dom().contains(user_id@),
            final(self)@ == if recorded {
                old(self)@.insert(user_id@, old(self)@[user_id@].record_action(now))
            } else {
                old(self)@
            },
    {
        let id = user_id.to_owned();
        match self.find(&id) {
            Some(i) => {
                proof {
                    self.lemma_slot(i as int);
                }
                self.sessions[i].record_action_at(now);
                proof {
                    self.lemma_updated(old(self), i as int);
                }
                true
            },
            None => false,
        }
    }

    /// Whether the holder `user_id` has lost its claim at `now`: the store
    /// has no session for it, or its control has expired.
    pub fn is_control_expired_at(&self, user_id: &str, now: u64) -> (expired: bool)
        requires
            self.wf(),
        ensures
            expired == holder_expired(self@, user_id@, now as int),
    {
        match self.get_user(user_id) {
            Some(user) => user.is_control_expired_at(now),
            None => true,
        }
    }
}

} // verus!
