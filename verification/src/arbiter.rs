//! Reconciliation: the one procedure that moves the queue's active slot.
//! It expires a holder whose claim has lapsed, promotes the head of the
//! waiting list into an empty slot, and tells everyone concerned.

use crate::message::ServerMessage;
use crate::message::ServerMessageView;
use crate::queue::Id;
use crate::queue::QueueView;
use crate::state::effect_views;
use crate::state::AppState;
use crate::state::Effect;
use crate::state::EffectView;
use crate::state::Outcome;
use crate::state::StateView;
use crate::store::holder_expired;
use vstd::prelude::*;

verus! {

impl StateView {
    /// The id that a pass promotes: the head of the waiting list, if the
    /// active slot is empty and somebody waits.
    pub open spec fn promoted(self) -> Option<Id> {
        if self.queue.active is None && self.queue.waiting.len() > 0 {
            Some(self.queue.waiting[0])
        } else {
            None
        }
    }

    /// The queue once a pass has looked at the active slot: unchanged if
    /// the slot is taken, else with the head of the waiting list promoted.
    pub open spec fn after_promotion(self) -> QueueView {
        if self.queue.active is None {
            self.queue.next_user()
        } else {
            self.queue
        }
    }

    /// Whether a pass at `now` finds a holder whose claim has lapsed: its
    /// session is gone, or its control has expired.
    pub open spec fn holder_lapsed(self, now: u64) -> bool {
        self.queue.active matches Some(holder) && holder_expired(self.users, holder, now as int)
    }

    /// Whether a pass grants control: it promotes an id that has a session.
    pub open spec fn grants(self) -> bool {
        self.promoted() matches Some(next) && self.users.dom().contains(next)
    }

    /// The rank notices for the first `n` of `waiting`, in order: each id
    /// that has a channel is told its 1-based rank.
    pub open spec fn rank_notices(self, waiting: Seq<Id>, n: int) -> Seq<EffectView>
        decreases n,
    {
        if n <= 0 {
            Seq::empty()
        } else {
            self.rank_notices(waiting, n - 1) + self.notify(
                waiting[n - 1],
                ServerMessageView::QueuePosition { user_id: waiting[n - 1], position: n },
            )
        }
    }

    /// One reconciliation pass at `now`.
    ///
    /// A holder whose claim has lapsed loses the active slot and is told
    /// `AccessDenied`; the slot is filled again only by a later pass. With
    /// the slot empty at the start, the head of the waiting list takes it
    /// and, if it has a session, is granted control and told
    /// `AccessGranted`. Everyone still waiting is told their rank. The
    /// session of a lapsed holder is left as it is: it keeps reporting
    /// `has_control` until it is released or removed.
    pub open spec fn process_queue(self, now: u64) -> Outcome {
        let lapsed = self.holder_lapsed(now);
        let queue = if lapsed {
            self.queue.deactivate()
        } else {
            self.after_promotion()
        };
        let users = if self.grants() {
            let next = self.promoted().unwrap();
            self.users.insert(next, self.users[next].grant_control(now))
        } else {
            self.users
        };
        let denied = if lapsed {
            let holder = self.queue.active.unwrap();
            self.notify(holder, ServerMessageView::AccessDenied { user_id: holder })
        } else {
            Seq::empty()
        };
        let granted = if self.grants() {
            let next = self.promoted().unwrap();
            self.notify(next, ServerMessageView::AccessGranted { user_id: next })
        } else {
            Seq::empty()
        };
        let waiting = self.after_promotion().waiting;
        Outcome {
            state: StateView { users, queue, senders: self.senders },
            effects: denied + granted + self.rank_notices(waiting, waiting.len() as int),
        }
    }
}

impl AppState {
    /// One reconciliation pass at the present reading of the clock. See
    /// [`AppState::process_queue_at`] for what a pass does at a given
    /// moment.
    pub fn process_queue(&mut self) -> (effects: Vec<Effect>)
        requires
            old(self).wf(),
        ensures
            final(self).wf(),
            exists|now: u64|
                {
                    &&& final(self)@ == (#[trigger] old(self)@.process_queue(now)).state
                    &&& effect_views(effects@) == old(self)@.process_queue(now).effects
                },
    {
        let now = self.now_ms();
        self.process_queue_at(now)
    }

    /// One reconciliation pass at `now`: see [`StateView::process_queue`].
    pub fn process_queue_at(&mut self, now: u64) -> (effects: Vec<Effect>)
        requires
            old(self).wf(),
        ensures
            final(self).wf(),
            final(self)@ == old(self)@.process_queue(now).state,
            effect_views(effects@) == old(self)@.process_queue(now).effects,
    {
        let ghost before = self@;
        let mut effects: Vec<Effect> = Vec::new();
        assert(effect_views(effects@) =~= Seq::<EffectView>::empty());

        let captured: Option<String> = match self.queue.active() {
            Some(holder) => Some(holder.clone()),
            None => None,
        };
        let promoted: Option<String> = if captured.is_none() {
            self.queue.next_user()
        } else {
            None
        };
        let snapshot = self.queue.waiting_list();
        assert(self.queue@ == before.after_promotion());

        if let Some(holder) = &captured {
            if self.users.is_control_expired_at(holder.as_str(), now) {
                self.queue.deactivate();
                let message = ServerMessage::AccessDenied { user_id: holder.clone() };
                self.push_notice(&mut effects, holder.as_str(), message);
            }
        }
        let ghost denied = effect_views(effects@);

        if let Some(next) = &promoted {
            if self.users.grant_control_at(next.as_str(), now) {
                let message = ServerMessage::AccessGranted { user_id: next.clone() };
                self.push_notice(&mut effects, next.as_str(), message);
            }
        }
        let ghost granted = effect_views(effects@);
        assert(self@.users == before.process_queue(now).state.users);
        assert(self@.queue == before.process_queue(now).state.queue);

        let ghost waiting = before.after_promotion().waiting;
        let n = snapshot.len();
        let mut i: usize = 0;
        while i < n
            invariant
                self.wf(),
                self@.senders == before.senders,
                self@.queue.waiting == waiting,
                crate::queue::ids_of(snapshot@) == waiting,
                n == snapshot@.len(),
                i <= n,
                effect_views(effects@) == granted + before.rank_notices(waiting, i as int),
            decreases n - i,
        {
            let user_id = snapshot[i].as_str();
            assert(user_id@ == waiting[i as int]);
            match self.queue.position(user_id) {
                Some(position) => {
                    assert(position == i + 1) by {
                        assert(waiting[position - 1] == waiting[i as int]);
                    }
                    let message = ServerMessage::QueuePosition {
                        user_id: snapshot[i].clone(),
                        position,
                    };
                    self.push_notice(&mut effects, user_id, message);
                },
                None => {
                    assert(waiting.contains(waiting[i as int]));
                },
            }
            i += 1;
        }
        effects
    }
}

/// Rank notices are sends only, each to an id that has a channel.
pub proof fn lemma_rank_notices_are_sends(state: StateView, waiting: Seq<Id>, n: int)
    requires
        n <= waiting.len(),
    ensures
        forall|k: int|
            0 <= k < state.rank_notices(waiting, n).len() ==> state.delivers(
                #[trigger] state.rank_notices(waiting, n)[k],
            ),
        state.rank_notices(waiting, n).len() <= if n > 0 {
            n
        } else {
            0
        },
    decreases n,
{
    if n > 0 {
        lemma_rank_notices_are_sends(state, waiting, n - 1);
    }
}

/// With a channel for everyone who waits, the rank notices are one per
/// waiting id, in order, each telling the id its rank.
pub proof fn lemma_rank_notices_all(state: StateView, waiting: Seq<Id>, n: int)
    requires
        0 <= n <= waiting.len(),
        forall|i: int| 0 <= i < n ==> state.senders.contains(#[trigger] waiting[i]),
    ensures
        state.rank_notices(waiting, n).len() == n,
        forall|i: int|
            0 <= i < n ==> #[trigger] state.rank_notices(waiting, n)[i] == (EffectView::Send {
                user_id: waiting[i],
                message: ServerMessageView::QueuePosition { user_id: waiting[i], position: i + 1 },
            }),
    decreases n,
{
    if n > 0 {
        lemma_rank_notices_all(state, waiting, n - 1);
        assert(state.senders.contains(waiting[n - 1]));
    }
}

/// A pass keeps the state well-formed, keeps the channels, dispatches
/// nothing, and sends only to ids that have a channel.
pub proof fn lemma_process_queue_wf(state: StateView, now: u64)
    requires
        state.wf(),
    ensures
        state.process_queue(now).state.wf(),
        state.process_queue(now).state.senders == state.senders,
        state.process_queue(now).state.users.dom() == state.users.dom(),
        forall|k: int|
            0 <= k < state.process_queue(now).effects.len() ==> state.delivers(
                #[trigger] state.process_queue(now).effects[k],
            ),
{
    crate::queue::lemma_next_user(state.queue);
    let waiting = state.after_promotion().waiting;
    lemma_rank_notices_are_sends(state, waiting, waiting.len() as int);
    if state.grants() {
        let next = state.promoted().unwrap();
        assert(state.process_queue(now).state.users.dom() =~= state.users.dom());
    }
}

/// A pass with nothing to change changes nothing. While the holder's
/// claim stands, the state stays as it is and the only effects are the
/// rank notices; with no holder and nobody waiting, there is no effect at
/// all. So a pass may be repeated, or run early, safely.
pub proof fn lemma_pass_without_change(state: StateView, now: u64)
    requires
        state.wf(),
    ensures
        state.queue.active is Some && !state.holder_lapsed(now) ==> {
            &&& state.process_queue(now).state == state
            &&& state.process_queue(now).effects == state.rank_notices(
                state.queue.waiting,
                state.queue.waiting.len() as int,
            )
        },
        state.queue.active is None && state.queue.waiting.len() == 0 ==> {
            &&& state.process_queue(now).state == state
            &&& state.process_queue(now).effects == Seq::<EffectView>::empty()
        },
{
    let out = state.process_queue(now);
    if state.queue.active is Some && !state.holder_lapsed(now) {
        assert(out.effects =~= state.rank_notices(
            state.queue.waiting,
            state.queue.waiting.len() as int,
        ));
    }
    if state.queue.active is None && state.queue.waiting.len() == 0 {
        assert(out.effects =~= Seq::<EffectView>::empty());
    }
}

/// What a pass does to the active slot. A holder whose claim has lapsed
/// loses the slot and nobody takes it in the same pass; a holder whose
/// claim stands keeps it; an empty slot goes to the head of the waiting
/// list, which leaves the list, and whose session, if it has one, then
/// holds control stamped `now`.
pub proof fn lemma_pass_active_slot(state: StateView, now: u64)
    requires
        state.wf(),
    ensures
        state.holder_lapsed(now) ==> state.process_queue(now).state.queue.active is None
            && state.process_queue(now).state.queue.waiting == state.queue.waiting
            && state.process_queue(now).state.users == state.users,
        state.queue.active is Some && !state.holder_lapsed(now) ==> state.process_queue(
            now,
        ).state.queue.active == state.queue.active,
        state.queue.active is None && state.queue.waiting.len() > 0 ==> {
            let head = state.queue.waiting[0];
            let after = state.process_queue(now).state;
            &&& after.queue.active == Some(head)
            &&& after.queue.waiting == state.queue.waiting.drop_first()
            &&& !after.queue.waiting.contains(head)
            &&& state.users.dom().contains(head) ==> after.users[head].has_control
                && after.users[head].control_granted_at == Some(now)
        },
{
    crate::queue::lemma_next_user(state.queue);
}

/// A pass grants control to nobody but the id that takes the active slot
/// in that pass, and takes control from nobody: a session holds control
/// after the pass only if it did before or its id is now the active one,
/// and every session that held control still does. Stamps stay in step
/// with control.
pub proof fn lemma_pass_grants_only_active(state: StateView, now: u64, id: Id)
    requires
        state.wf(),
        state.users.dom().contains(id),
    ensures
        state.process_queue(now).state.users.dom().contains(id),
        state.process_queue(now).state.users[id].has_control ==> state.users[id].has_control
            || state.process_queue(now).state.queue.active == Some(id),
        state.users[id].has_control ==> state.process_queue(now).state.users[id].has_control,
        state.users[id].wf() ==> state.process_queue(now).state.users[id].wf(),
        state.process_queue(now).state.users[id].id == state.users[id].id,
        state.process_queue(now).state.users[id].last_action_at == state.users[id].last_action_at,
{
    crate::queue::lemma_next_user(state.queue);
}

/// A lapsed holder delays the next in line by one pass only: if a pass at
/// `first` finds that the holder's claim has lapsed, the pass after it, at
/// `second`, gives the slot to whoever was at the head of the waiting list,
/// and grants it control if it has a session.
pub proof fn lemma_two_passes_promote(state: StateView, first: u64, second: u64)
    requires
        state.wf(),
        state.holder_lapsed(first),
        state.queue.waiting.len() > 0,
    ensures
        ({
            let head = state.queue.waiting[0];
            let after = state.process_queue(first).state.process_queue(second).state;
            &&& after.queue.active == Some(head)
            &&& after.queue.waiting == state.queue.waiting.drop_first()
            &&& state.users.dom().contains(head) ==> after.users[head].has_control
                && after.users[head].control_granted_at == Some(second)
        }),
{
    lemma_process_queue_wf(state, first);
    lemma_pass_active_slot(state, first);
    let mid = state.process_queue(first).state;
    lemma_pass_active_slot(mid, second);
}

/// A pass keeps the stamps in step with control: if every session that
/// holds control carries the stamp of its grant and no other does, the
/// same is true after the pass.
pub proof fn lemma_pass_keeps_sessions_wf(state: StateView, now: u64)
    requires
        state.wf(),
        state.sessions_wf(),
    ensures
        state.process_queue(now).state.sessions_wf(),
{
    let after = state.process_queue(now).state;
    assert forall|id: Id| #[trigger] after.users.dom().contains(id) implies after.users[
        id
    ].wf() by {
        if state.grants() && id == state.promoted().unwrap() {
        } else {
            assert(state.users.dom().contains(id));
        }
    }
}

/// A pass keeps control exclusive unless it finds a holder whose claim has
/// lapsed. (Such a holder loses the slot but its session keeps reporting
/// control until it is released or removed, so from then on exclusiveness
/// rests on the expiry check, not on the flag.)
pub proof fn lemma_pass_keeps_exclusive(state: StateView, now: u64)
    requires
        state.wf(),
        state.exclusive(),
        !state.holder_lapsed(now),
    ensures
        state.process_queue(now).state.exclusive(),
{
    crate::queue::lemma_next_user(state.queue);
    let after = state.process_queue(now).state;
    assert forall|id: Id| #[trigger]
        after.users.dom().contains(id) && after.users[id].has_control implies after.queue.active
        == Some(id) by {
        if state.grants() && id == state.promoted().unwrap() {
        } else {
            assert(state.users.dom().contains(id));
            assert(state.users[id].has_control);
        }
    }
}

} // verus!
