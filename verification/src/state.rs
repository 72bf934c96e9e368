//! The process-wide coordinator: the session store, the access queue and
//! the notifier registry behind one handle, and the effects that its
//! operations ask the outside to perform.

use crate::action::Action;
use crate::clock::Clock;
use crate::message::ServerMessage;
use crate::message::ServerMessageView;
use crate::notifier::Notifier;
use crate::queue::AccessQueue;
use crate::queue::Id;
use crate::queue::QueueView;
use crate::session::SessionView;
use crate::session::UserSession;
use crate::store::SessionStore;
use vstd::prelude::*;

verus! {

/// Something the coordinator asks the outside to do, in the order given.
#[derive(Debug, PartialEq, Eq)]
pub enum Effect {
    /// Deliver `message` over the outbound channel of `user_id`.
    Send { user_id: String, message: ServerMessage },
    /// Forward `action` to the action sink.
    Dispatch { action: Action },
}

/// The mathematical content of an [`Effect`].
pub enum EffectView {
    Send { user_id: Id, message: ServerMessageView },
    Dispatch { action: Action },
}

impl View for Effect {
    type V = EffectView;

    open spec fn view(&self) -> EffectView {
        match *self {
            Effect::Send { user_id, message } => EffectView::Send {
                user_id: user_id@,
                message: message@,
            },
            Effect::Dispatch { action } => EffectView::Dispatch { action },
        }
    }
}

/// The contents of a list of effects.
pub open spec fn effect_views(effects: Seq<Effect>) -> Seq<EffectView> {
    effects.map_values(|effect: Effect| effect@)
}

/// The mathematical content of an [`AppState`].
pub struct StateView {
    /// The sessions of the connected clients, by id.
    pub users: Map<Id, SessionView>,
    pub queue: QueueView,
    /// The ids that have an outbound channel.
    pub senders: Set<Id>,
}

/// What an operation of the coordinator leaves behind: the next state and
/// the effects to perform, in order.
pub struct Outcome {
    pub state: StateView,
    pub effects: Seq<EffectView>,
}

impl StateView {
    /// The state of a coordinator that nobody has connected to.
    pub open spec fn empty() -> StateView {
        StateView { users: Map::empty(), queue: QueueView::empty(), senders: Set::empty() }
    }

    /// The queue is well-formed and every session is stored under its id.
    pub open spec fn wf(self) -> bool {
        &&& self.queue.wf()
        &&& forall|id: Id| #[trigger] self.users.dom().contains(id) ==> self.users[id].id == id
    }

    /// Every session that holds control carries the stamp of its grant,
    /// and no other does.
    pub open spec fn sessions_wf(self) -> bool {
        forall|id: Id| #[trigger] self.users.dom().contains(id) ==> self.users[id].wf()
    }

    /// Control is exclusive: whoever holds control is the active holder,
    /// so that at most one session holds control.
    pub open spec fn exclusive(self) -> bool {
        forall|id: Id| #[trigger]
            self.users.dom().contains(id) && self.users[id].has_control ==> self.queue.active
                == Some(id)
    }

    /// The delivery of `message` to `to`: one send if `to` has a channel,
    /// nothing otherwise.
    pub open spec fn notify(self, to: Id, message: ServerMessageView) -> Seq<EffectView> {
        if self.senders.contains(to) {
            seq![EffectView::Send { user_id: to, message }]
        } else {
            Seq::empty()
        }
    }

    /// Whether `effect` is a send to an id that has a channel.
    pub open spec fn delivers(self, effect: EffectView) -> bool {
        effect matches EffectView::Send { user_id, .. } && self.senders.contains(user_id)
    }

    /// The state after `session` was stored under its id.
    pub open spec fn add_user(self, session: SessionView) -> StateView {
        StateView { users: self.users.insert(session.id, session), ..self }
    }

    /// The state after `id` got an outbound channel.
    pub open spec fn register_sender(self, id: Id) -> StateView {
        StateView { senders: self.senders.insert(id), ..self }
    }

    /// The state after the channel of `id` was found closed.
    pub open spec fn sender_closed(self, id: Id) -> StateView {
        StateView { senders: self.senders.remove(id), ..self }
    }

    /// The state after `id` was removed: no session, no place in the queue,
    /// no channel.
    pub open spec fn remove_user(self, id: Id) -> StateView {
        StateView {
            users: self.users.remove(id),
            queue: self.queue.remove_user(id),
            senders: self.senders.remove(id),
        }
    }
}

/// The coordinator that every connection and the reconciliation tick work
/// on.
pub struct AppState {
    pub(crate) users: SessionStore,
    pub(crate) queue: AccessQueue,
    pub(crate) senders: Notifier,
    pub(crate) clock: Clock,
}

impl View for AppState {
    type V = StateView;

    open(crate) spec fn view(&self) -> StateView {
        StateView { users: self.users@, queue: self.queue@, senders: self.senders@ }
    }
}

impl AppState {
    /// The invariant of the coordinator: those of its three parts.
    pub open(crate) spec fn wf(&self) -> bool {
        &&& self.users.wf()
        &&& self.queue.wf()
        &&& self.senders.wf()
    }

    /// A well-formed coordinator has a well-formed content.
    pub proof fn lemma_view_wf(&self)
        requires
            self.wf(),
        ensures
            self@.wf(),
    {
        self.users.lemma_keyed_by_id();
    }

    /// A coordinator without sessions, with an empty queue and no channels,
    /// whose clock starts now.
    pub fn new() -> (state: Self)
        ensures
            state.wf(),
            state@ == StateView::empty(),
    {
        AppState {
            users: SessionStore::new(),
            queue: AccessQueue::new(),
            senders: Notifier::new(),
            clock: Clock::start(),
        }
    }

    /// The present reading of the coordinator's clock, in milliseconds.
    pub fn now_ms(&self) -> (now: u64) {
        self.clock.now_ms()
    }

    /// Stores the session of a client that connected, in place of any
    /// session its id had.
    pub fn add_user(&mut self, user: UserSession)
        requires
            old(self).wf(),
        ensures
            final(self).wf(),
            final(self)@ == old(self)@.add_user(user@),
    {
        self.users.add_user(user);
    }

    /// A copy of the session of `user_id`, if it has one.
    pub fn get_user(&self, user_id: &str) -> (found: Option<UserSession>)
        requires
            self.wf(),
        ensures
            match found {
                Some(user) => self@.users.dom().contains(user_id@) && user@
                    == self@.users[user_id@],
                None => !self@.users.dom().contains(user_id@),
            },
    {
        match self.users.get_user(user_id) {
            Some(user) => Some(user.clone()),
            None => None,
        }
    }

    /// Whether `user_id` has an outbound channel.
    pub fn has_sender(&self, user_id: &str) -> (registered: bool)
        ensures
            registered == self@.senders.contains(user_id@),
    {
        self.senders.is_registered(user_id)
    }

    /// Records that `user_id` has an outbound channel.
    pub fn register_sender(&mut self, user_id: String)
        requires
            old(self).wf(),
        ensures
            final(self).wf(),
            final(self)@ == old(self)@.register_sender(user_id@),
    {
        self.senders.register(user_id);
    }

    /// Forgets the outbound channel of `user_id` after a send found it
    /// closed; later messages to `user_id` are skipped.
    pub fn sender_closed(&mut self, user_id: &str)
        requires
            old(self).wf(),
        ensures
            final(self).wf(),
            final(self)@ == old(self)@.sender_closed(user_id@),
    {
        self.senders.unregister(user_id);
    }

    /// Removes `user_id`: its session, its place in the queue (waiting or
    /// active) and its outbound channel.
    pub fn remove_user(&mut self, user_id: &str)
        requires
            old(self).wf(),
        ensures
            final(self).wf(),
            final(self)@ == old(self)@.remove_user(user_id@),
    {
        self.users.remove_user(user_id);
        self.queue.remove_user(user_id);
        self.senders.unregister(user_id);
    }

    /// The delivery of `message` to `user_id`: the send to perform if
    /// `user_id` has an outbound channel, `None` otherwise.
    pub fn send_message_to_user(&self, user_id: &str, message: ServerMessage) -> (effect: Option<
        Effect,
    >)
        ensures
            match effect {
                Some(send) => self@.notify(user_id@, message@) == seq![send@],
                None => self@.notify(user_id@, message@) == Seq::<EffectView>::empty(),
            },
    {
        if self.senders.is_registered(user_id) {
            Some(Effect::Send { user_id: user_id.to_owned(), message })
        } else {
            None
        }
    }

    /// Appends the delivery of `message` to `user_id` to `effects`.
    pub(crate) fn push_notice(
        &self,
        effects: &mut Vec<Effect>,
        user_id: &str,
        message: ServerMessage,
    )
        ensures
            effect_views(final(effects)@) == effect_views(old(effects)@) + self@.notify(
                user_id@,
                message@,
            ),
    {
        match self.send_message_to_user(user_id, message) {
            Some(send) => {
                effects.push(send);
                assert(effect_views(effects@) =~= effect_views(old(effects)@) + seq![send@]);
            },
            None => {
                assert(effect_views(effects@) =~= effect_views(old(effects)@) + Seq::<
                    EffectView,
                >::empty());
            },
        }
    }
}

/// Removing a user twice is the same as removing it once, and leaves the
/// state well-formed.
pub proof fn lemma_remove_user_idempotent(state: StateView, id: Id)
    requires
        state.wf(),
    ensures
        state.remove_user(id).wf(),
        state.remove_user(id).remove_user(id) == state.remove_user(id),
        !state.remove_user(id).users.dom().contains(id),
        !state.remove_user(id).queue.knows(id),
        !state.remove_user(id).senders.contains(id),
{
    crate::queue::lemma_remove_user(state.queue, id);
    crate::queue::lemma_join_and_leave_idempotent(state.queue, id);
    let once = state.remove_user(id);
    assert(once.users.remove(id) =~= once.users);
    assert(once.senders.remove(id) =~= once.senders);
}

} // verus!
