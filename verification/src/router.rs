//! The protocol router: what one inbound message of one client does to the
//! coordinator, and what is sent or dispatched in answer.

use crate::action::Action;
use crate::message::ClientMessage;
use crate::message::ClientMessageView;
use crate::message::ServerMessage;
use crate::message::ServerMessageView;
use crate::queue::Id;
use crate::state::effect_views;
use crate::state::AppState;
use crate::state::Effect;
use crate::state::EffectView;
use crate::state::Outcome;
use crate::state::StateView;
use vstd::prelude::*;

verus! {

impl StateView {
    /// The position that a sender who asked for access is told at once: its
    /// own rank among those waiting. A sender that holds the active slot
    /// does not wait and has no rank; it is told the length of the waiting
    /// list.
    pub open spec fn told_position(self, user: Id) -> int {
        match self.queue.position(user) {
            Some(rank) => rank,
            None => self.queue.waiting.len() as int,
        }
    }

    /// `user` asks for access at `now`: it joins the waiting list unless it
    /// waits or holds control already, is told its position (see
    /// [`StateView::told_position`]), and a reconciliation pass follows.
    pub open spec fn request_access(self, user: Id, now: u64) -> Outcome {
        let joined = StateView { queue: self.queue.add_user(user), ..self };
        let told = joined.notify(
            user,
            ServerMessageView::QueuePosition {
                user_id: user,
                position: joined.told_position(user),
            },
        );
        let pass = joined.process_queue(now);
        Outcome { state: pass.state, effects: told + pass.effects }
    }

    /// `user` issues `action` at `now`.
    ///
    /// Without a session nothing happens. A session that does not hold
    /// control, or whose control has expired, is told `AccessDenied` and
    /// nothing is dispatched. Otherwise the sender is told `ControlAction`
    /// in any case, and the action is dispatched, and stamped on the
    /// session, only if the session's cooldown has passed.
    pub open spec fn control(self, user: Id, action: Action, now: u64) -> Outcome {
        if !self.users.dom().contains(user) {
            Outcome { state: self, effects: Seq::empty() }
        } else if !self.users[user].may_act(now as int) {
            Outcome {
                state: self,
                effects: self.notify(user, ServerMessageView::AccessDenied { user_id: user }),
            }
        } else {
            let echo = self.notify(
                user,
                ServerMessageView::ControlAction { user_id: user, action },
            );
            if self.users[user].can_do_action(now as int) {
                Outcome {
                    state: StateView {
                        users: self.users.insert(user, self.users[user].record_action(now)),
                        ..self
                    },
                    effects: seq![EffectView::Dispatch { action }] + echo,
                }
            } else {
                Outcome { state: self, effects: echo }
            }
        }
    }

    /// `user` gives control back at `now`: if its session holds control,
    /// the session loses it, the active slot is cleared and a
    /// reconciliation pass follows; otherwise nothing happens.
    pub open spec fn release_control(self, user: Id, now: u64) -> Outcome {
        if self.users.dom().contains(user) && self.users[user].has_control {
            let released = StateView {
                users: self.users.insert(user, self.users[user].revoke_control()),
                queue: self.queue.deactivate(),
                ..self
            };
            released.process_queue(now)
        } else {
            Outcome { state: self, effects: Seq::empty() }
        }
    }

    /// `user` asks for its id: a session is told the id it holds.
    pub open spec fn get_user_id(self, user: Id) -> Outcome {
        if self.users.dom().contains(user) {
            Outcome {
                state: self,
                effects: self.notify(
                    user,
                    ServerMessageView::ResponseUserId { user_id: self.users[user].id },
                ),
            }
        } else {
            Outcome { state: self, effects: Seq::empty() }
        }
    }

    /// What `message` from `user` at `now` does.
    pub open spec fn handle_client_message(
        self,
        message: ClientMessageView,
        user: Id,
        now: u64,
    ) -> Outcome {
        match message {
            ClientMessageView::RequestAccess => self.request_access(user, now),
            ClientMessageView::Control { action } => self.control(user, action, now),
            ClientMessageView::ReleaseControl => self.release_control(user, now),
            ClientMessageView::GetUserId => self.get_user_id(user),
            ClientMessageView::UserDisconnected { user_id } => Outcome {
                state: self.remove_user(user_id),
                effects: Seq::empty(),
            },
        }
    }

    /// The connection of `user` ended at `now`: the user is removed and a
    /// reconciliation pass follows.
    pub open spec fn disconnect(self, user: Id, now: u64) -> Outcome {
        self.remove_user(user).process_queue(now)
    }
}

/// One frame read from a client's connection, as far as the router cares.
#[derive(Debug, PartialEq, Eq)]
pub enum Frame {
    /// A text frame that parsed as a protocol message.
    Message(ClientMessage),
    /// A text frame that did not parse.
    Malformed,
    /// The client closed the connection.
    Close,
    /// Reading failed.
    Failed,
    /// Any other frame.
    Other,
}

/// What the reader of a connection does with a frame.
#[derive(Debug, PartialEq, Eq)]
pub enum FrameStep {
    /// Hand the message to the router and read on.
    Handle(ClientMessage),
    /// Drop the frame and read on.
    Skip,
    /// Stop reading: the connection is over.
    Stop,
}

/// Decides what the reader does with `frame`: a protocol message is
/// handled, a close or a read failure ends the connection, and anything
/// else, malformed text included, is dropped with the connection left open.
pub fn frame_step(frame: Frame) -> (step: FrameStep)
    ensures
        step == match frame {
            Frame::Message(message) => FrameStep::Handle(message),
            Frame::Close => FrameStep::Stop,
            Frame::Failed => FrameStep::Stop,
            Frame::Malformed => FrameStep::Skip,
            Frame::Other => FrameStep::Skip,
        },
{
    match frame {
        Frame::Message(message) => FrameStep::Handle(message),
        Frame::Close => FrameStep::Stop,
        Frame::Failed => FrameStep::Stop,
        Frame::Malformed => FrameStep::Skip,
        Frame::Other => FrameStep::Skip,
    }
}

impl AppState {
    /// Handles `message` from `user_id` at the present reading of the
    /// clock. See [`AppState::handle_client_message_at`] for what a message
    /// does at a given moment.
    pub fn handle_client_message(&mut self, message: ClientMessage, user_id: &str) -> (effects:
        Vec<Effect>)
        requires
            old(self).wf(),
        ensures
            final(self).wf(),
            exists|now: u64|
                {
                    &&& final(self)@ == (#[trigger] old(self)@.handle_client_message(
                        message@,
                        user_id@,
                        now,
                    )).state
                    &&& effect_views(effects@) == old(self)@.handle_client_message(
                        message@,
                        user_id@,
                        now,
                    ).effects
                },
    {
        let now = self.now_ms();
        self.handle_client_message_at(message, user_id, now)
    }

    /// Handles `message` from `user_id` at `now`: see
    /// [`StateView::handle_client_message`].
    pub fn handle_client_message_at(
        &mut self,
        message: ClientMessage,
        user_id: &str,
        now: u64,
    ) -> (effects: Vec<Effect>)
        requires
            old(self).wf(),
        ensures
            final(self).wf(),
            final(self)@ == old(self)@.handle_client_message(message@, user_id@, now).state,
            effect_views(effects@) == old(self)@.handle_client_message(
                message@,
                user_id@,
                now,
            ).effects,
    {
        match message {
            ClientMessage::RequestAccess => self.request_access_at(user_id, now),
            ClientMessage::Control { action } => self.control_at(user_id, action, now),
            ClientMessage::ReleaseControl => self.release_control_at(user_id, now),
            ClientMessage::GetUserId => self.get_user_id(user_id),
            ClientMessage::UserDisconnected { user_id: gone } => {
                self.remove_user(gone.as_str());
                let effects: Vec<Effect> = Vec::new();
                assert(effect_views(effects@) =~= Seq::<EffectView>::empty());
                effects
            },
        }
    }

    /// `user_id` asks for access at `now`: see
    /// [`StateView::request_access`].
    pub fn request_access_at(&mut self, user_id: &str, now: u64) -> (effects: Vec<Effect>)
        requires
            old(self).wf(),
        ensures
            final(self).wf(),
            final(self)@ == old(self)@.request_access(user_id@, now).state,
            effect_views(effects@) == old(self)@.request_access(user_id@, now).effects,
    {
        let waiting = self.queue.add_user(user_id.to_owned());
        let position = match self.queue.position(user_id) {
            Some(rank) => rank,
            None => waiting,
        };
        let mut effects: Vec<Effect> = Vec::new();
        assert(effect_views(effects@) =~= Seq::<EffectView>::empty());
        let message = ServerMessage::QueuePosition { user_id: user_id.to_owned(), position };
        self.push_notice(&mut effects, user_id, message);
        let ghost told = effect_views(effects@);
        let mut pass = self.process_queue_at(now);
        let ghost passed = effect_views(pass@);
        effects.append(&mut pass);
        assert(effect_views(effects@) =~= told + passed);
        effects
    }

    /// `user_id` issues `action` at `now`: see [`StateView::control`].
    pub fn control_at(&mut self, user_id: &str, action: Action, now: u64) -> (effects: Vec<
        Effect,
    >)
        requires
            old(self).wf(),
        ensures
            final(self).wf(),
            final(self)@ == old(self)@.control(user_id@, action, now).state,
            effect_views(effects@) == old(self)@.control(user_id@, action, now).effects,
    {
        let mut effects: Vec<Effect> = Vec::new();
        assert(effect_views(effects@) =~= Seq::<EffectView>::empty());
        let (may_act, cooled) = match self.users.get_user(user_id) {
            Some(user) => (
                user.has_control && !user.is_control_expired_at(now),
                user.can_do_action_at(now),
            ),
            None => {
                return effects;
            },
        };
        if may_act {
            if cooled {
                self.users.record_action_at(user_id, now);
                effects.push(Effect::Dispatch { action });
                assert(effect_views(effects@) =~= seq![EffectView::Dispatch { action }]);
            }
            let message = ServerMessage::ControlAction { user_id: user_id.to_owned(), action };
            self.push_notice(&mut effects, user_id, message);
        } else {
            let message = ServerMessage::AccessDenied { user_id: user_id.to_owned() };
            self.push_notice(&mut effects, user_id, message);
        }
        effects
    }

    /// `user_id` gives control back at `now`: see
    /// [`StateView::release_control`].
    pub fn release_control_at(&mut self, user_id: &str, now: u64) -> (effects: Vec<Effect>)
        requires
            old(self).wf(),
        ensures
            final(self).wf(),
            final(self)@ == old(self)@.release_control(user_id@, now).state,
            effect_views(effects@) == old(self)@.release_control(user_id@, now).effects,
    {
        let holds = match self.users.get_user(user_id) {
            Some(user) => user.has_control,
            None => false,
        };
        if holds {
            self.users.revoke_control(user_id);
            self.queue.deactivate();
            self.process_queue_at(now)
        } else {
            let effects: Vec<Effect> = Vec::new();
            assert(effect_views(effects@) =~= Seq::<EffectView>::empty());
            effects
        }
    }

    /// `user_id` asks for its id: see [`StateView::get_user_id`].
    pub fn get_user_id(&mut self, user_id: &str) -> (effects: Vec<Effect>)
        requires
            old(self).wf(),
        ensures
            final(self).wf(),
            final(self)@ == old(self)@.get_user_id(user_id@).state,
            effect_views(effects@) == old(self)@.get_user_id(user_id@).effects,
    {
        let mut effects: Vec<Effect> = Vec::new();
        assert(effect_views(effects@) =~= Seq::<EffectView>::empty());
        let known: Option<String> = match self.users.get_user(user_id) {
            Some(user) => Some(user.id.clone()),
            None => None,
        };
        if let Some(id) = known {
            let message = ServerMessage::ResponseUserId { user_id: id };
            self.push_notice(&mut effects, user_id, message);
        }
        effects
    }

    /// The connection of `user_id` ended: removes the user and runs a
    /// reconciliation pass at the present reading of the clock.
    pub fn disconnect(&mut self, user_id: &str) -> (effects: Vec<Effect>)
        requires
            old(self).wf(),
        ensures
            final(self).wf(),
            exists|now: u64|
                {
                    &&& final(self)@ == (#[trigger] old(self)@.disconnect(user_id@, now)).state
                    &&& effect_views(effects@) == old(self)@.disconnect(user_id@, now).effects
                },
    {
        let now = self.now_ms();
        self.disconnect_at(user_id, now)
    }

    /// The connection of `user_id` ended at `now`: see
    /// [`StateView::disconnect`].
    pub fn disconnect_at(&mut self, user_id: &str, now: u64) -> (effects: Vec<Effect>)
        requires
            old(self).wf(),
        ensures
            final(self).wf(),
            final(self)@ == old(self)@.disconnect(user_id@, now).state,
            effect_views(effects@) == old(self)@.disconnect(user_id@, now).effects,
    {
        self.remove_user(user_id);
        self.process_queue_at(now)
    }
}

/// Every message leaves a well-formed state well-formed.
pub proof fn lemma_handle_client_message_wf(
    state: StateView,
    message: ClientMessageView,
    user: Id,
    now: u64,
)
    requires
        state.wf(),
    ensures
        state.handle_client_message(message, user, now).state.wf(),
{
    match message {
        ClientMessageView::RequestAccess => {
            crate::queue::lemma_add_user(state.queue, user);
            let joined = StateView { queue: state.queue.add_user(user), ..state };
            crate::arbiter::lemma_process_queue_wf(joined, now);
        },
        ClientMessageView::Control { action } => {},
        ClientMessageView::ReleaseControl => {
            if state.users.dom().contains(user) && state.users[user].has_control {
                let released = StateView {
                    users: state.users.insert(user, state.users[user].revoke_control()),
                    queue: state.queue.deactivate(),
                    ..state
                };
                crate::arbiter::lemma_process_queue_wf(released, now);
            }
        },
        ClientMessageView::GetUserId => {},
        ClientMessageView::UserDisconnected { user_id } => {
            crate::queue::lemma_remove_user(state.queue, user_id);
        },
    }
}

/// Control without the right to it reaches nobody: a session that does not
/// hold control, or whose control has expired, is answered `AccessDenied`
/// and nothing is dispatched, and the state stays as it is.
pub proof fn lemma_control_denied(state: StateView, user: Id, action: Action, now: u64)
    requires
        state.users.dom().contains(user),
        !state.users[user].may_act(now as int),
    ensures
        state.control(user, action, now).state == state,
        state.control(user, action, now).effects == state.notify(
            user,
            ServerMessageView::AccessDenied { user_id: user },
        ),
{
}

/// Of two control messages of one session less than the cooldown apart,
/// exactly one is dispatched, and both are echoed.
///
/// The session holds control that has not expired at either moment, has a
/// channel, and its cooldown is over at `first`. Then the message at
/// `first` is dispatched and echoed, and the one at `second` is echoed only.
pub proof fn lemma_control_within_cooldown(
    state: StateView,
    user: Id,
    first_action: Action,
    second_action: Action,
    first: u64,
    second: u64,
)
    requires
        state.users.dom().contains(user),
        state.senders.contains(user),
        state.users[user].may_act(first as int),
        state.users[user].may_act(second as int),
        state.users[user].can_do_action(first as int),
        first <= second < first + crate::session::ACTION_COOLDOWN_MS,
    ensures
        state.control(user, first_action, first).effects == seq![
            EffectView::Dispatch { action: first_action },
            EffectView::Send {
                user_id: user,
                message: ServerMessageView::ControlAction { user_id: user, action: first_action },
            },
        ],
        state.control(user, first_action, first).state.control(
            user,
            second_action,
            second,
        ).effects == seq![
            EffectView::Send {
                user_id: user,
                message: ServerMessageView::ControlAction { user_id: user, action: second_action },
            },
        ],
{
    let echo = state.notify(
        user,
        ServerMessageView::ControlAction { user_id: user, action: first_action },
    );
    assert(seq![EffectView::Dispatch { action: first_action }] + echo =~= seq![
        EffectView::Dispatch { action: first_action },
        EffectView::Send {
            user_id: user,
            message: ServerMessageView::ControlAction { user_id: user, action: first_action },
        },
    ]);
}

/// A control message is dispatched at most once, and only for a session
/// that may act and whose cooldown is over; the echo to a session that may
/// act does not depend on the cooldown.
pub proof fn lemma_control_dispatch(state: StateView, user: Id, action: Action, now: u64)
    ensures
        state.control(user, action, now).effects.contains(EffectView::Dispatch { action }) <==> (
        state.users.dom().contains(user) && state.users[user].may_act(now as int)
            && state.users[user].can_do_action(now as int)),
        forall|k: int|
            0 < k < state.control(user, action, now).effects.len() ==> !(
            #[trigger] state.control(user, action, now).effects[k] is Dispatch),
        state.users.dom().contains(user) && state.users[user].may_act(now as int)
            && state.senders.contains(user) ==> state.control(user, action, now).effects.last()
            == (EffectView::Send {
            user_id: user,
            message: ServerMessageView::ControlAction { user_id: user, action },
        }),
{
    let out = state.control(user, action, now);
    if state.users.dom().contains(user) && state.users[user].may_act(now as int)
        && state.users[user].can_do_action(now as int) {
        assert(out.effects[0] == EffectView::Dispatch { action });
    }
}

/// What a message can set in motion. Only a control message dispatches,
/// and everything else that is asked for is a send to an id that has a
/// channel. Channels do not change, but for the one of a user that an
/// explicit removal names.
pub proof fn lemma_effects_of_message(
    state: StateView,
    message: ClientMessageView,
    user: Id,
    now: u64,
)
    requires
        state.wf(),
    ensures
        forall|k: int|
            0 <= k < state.handle_client_message(message, user, now).effects.len() ==> {
                let effect = #[trigger] state.handle_client_message(message, user, now).effects[k];
                ||| state.delivers(effect)
                ||| message matches ClientMessageView::Control { action } && effect
                    == (EffectView::Dispatch { action })
            },
        !(message is UserDisconnected) ==> state.handle_client_message(
            message,
            user,
            now,
        ).state.senders == state.senders,
{
    match message {
        ClientMessageView::RequestAccess => {
            crate::queue::lemma_add_user(state.queue, user);
            let joined = StateView { queue: state.queue.add_user(user), ..state };
            crate::arbiter::lemma_process_queue_wf(joined, now);
            let told = joined.notify(
                user,
                ServerMessageView::QueuePosition {
                    user_id: user,
                    position: joined.told_position(user),
                },
            );
            let pass = joined.process_queue(now);
            assert forall|k: int| 0 <= k < (told + pass.effects).len() implies state.delivers(
                #[trigger] (told + pass.effects)[k],
            ) by {
                if k >= told.len() {
                    assert(joined.delivers(pass.effects[k - told.len()]));
                }
            }
        },
        ClientMessageView::Control { action } => {},
        ClientMessageView::ReleaseControl => {
            if state.users.dom().contains(user) && state.users[user].has_control {
                let released = StateView {
                    users: state.users.insert(user, state.users[user].revoke_control()),
                    queue: state.queue.deactivate(),
                    ..state
                };
                crate::arbiter::lemma_process_queue_wf(released, now);
                let pass = released.process_queue(now);
                assert forall|k: int| 0 <= k < pass.effects.len() implies state.delivers(
                    #[trigger] pass.effects[k],
                ) by {
                    assert(released.delivers(pass.effects[k]));
                }
            }
        },
        ClientMessageView::GetUserId => {},
        ClientMessageView::UserDisconnected { user_id } => {},
    }
}

/// No message grants control but to the id that takes the active slot
/// while the message is handled: a session that holds control afterwards
/// held it before, or its id is now the active one.
pub proof fn lemma_message_grants_only_active(
    state: StateView,
    message: ClientMessageView,
    user: Id,
    now: u64,
    id: Id,
)
    requires
        state.wf(),
        state.handle_client_message(message, user, now).state.users.dom().contains(id),
        state.handle_client_message(message, user, now).state.users[id].has_control,
    ensures
        state.users.dom().contains(id),
        state.users[id].has_control || state.handle_client_message(
            message,
            user,
            now,
        ).state.queue.active == Some(id),
{
    match message {
        ClientMessageView::RequestAccess => {
            crate::queue::lemma_add_user(state.queue, user);
            let joined = StateView { queue: state.queue.add_user(user), ..state };
            crate::arbiter::lemma_process_queue_wf(joined, now);
            crate::arbiter::lemma_pass_grants_only_active(joined, now, id);
        },
        ClientMessageView::Control { action } => {},
        ClientMessageView::ReleaseControl => {
            if state.users.dom().contains(user) && state.users[user].has_control {
                let released = StateView {
                    users: state.users.insert(user, state.users[user].revoke_control()),
                    queue: state.queue.deactivate(),
                    ..state
                };
                crate::arbiter::lemma_process_queue_wf(released, now);
                assert(released.users.dom() =~= state.users.dom());
                crate::arbiter::lemma_pass_grants_only_active(released, now, id);
            }
        },
        ClientMessageView::GetUserId => {},
        ClientMessageView::UserDisconnected { user_id } => {},
    }
}

/// Giving control back frees the slot for the next in line at once: after
/// a holder's release the slot belongs to whoever was at the head of the
/// waiting list, or to nobody if nobody waited, and the one who released
/// no longer holds control.
pub proof fn lemma_release_promotes(state: StateView, user: Id, now: u64)
    requires
        state.wf(),
        state.users.dom().contains(user),
        state.users[user].has_control,
    ensures
        ({
            let after = state.release_control(user, now).state;
            &&& state.queue.waiting.len() > 0 ==> after.queue.active == Some(state.queue.waiting[0])
                && after.queue.waiting == state.queue.waiting.drop_first()
            &&& state.queue.waiting.len() == 0 ==> after.queue.active is None
            &&& after.users.dom().contains(user)
            &&& !(after.queue.active == Some(user)) ==> !after.users[user].has_control
        }),
{
    let released = StateView {
        users: state.users.insert(user, state.users[user].revoke_control()),
        queue: state.queue.deactivate(),
        ..state
    };
    crate::queue::lemma_next_user(released.queue);
    crate::arbiter::lemma_pass_active_slot(released, now);
    crate::arbiter::lemma_process_queue_wf(released, now);
    assert(released.users.dom() =~= state.users.dom());
}

/// Handling a message keeps the stamps in step with control.
pub proof fn lemma_message_keeps_sessions_wf(
    state: StateView,
    message: ClientMessageView,
    user: Id,
    now: u64,
)
    requires
        state.wf(),
        state.sessions_wf(),
    ensures
        state.handle_client_message(message, user, now).state.sessions_wf(),
{
    let after = state.handle_client_message(message, user, now).state;
    match message {
        ClientMessageView::RequestAccess => {
            crate::queue::lemma_add_user(state.queue, user);
            let joined = StateView { queue: state.queue.add_user(user), ..state };
            crate::arbiter::lemma_pass_keeps_sessions_wf(joined, now);
        },
        ClientMessageView::Control { action } => {
            assert forall|id: Id| #[trigger] after.users.dom().contains(id) implies after.users[
                id
            ].wf() by {
                assert(state.users.dom().contains(id));
            }
        },
        ClientMessageView::ReleaseControl => {
            if state.users.dom().contains(user) && state.users[user].has_control {
                let released = StateView {
                    users: state.users.insert(user, state.users[user].revoke_control()),
                    queue: state.queue.deactivate(),
                    ..state
                };
                assert forall|id: Id| #[trigger]
                    released.users.dom().contains(id) implies released.users[id].wf() by {
                    if id != user {
                        assert(state.users.dom().contains(id));
                    }
                }
                crate::arbiter::lemma_pass_keeps_sessions_wf(released, now);
            }
        },
        ClientMessageView::GetUserId => {},
        ClientMessageView::UserDisconnected { user_id } => {
            assert forall|id: Id| #[trigger] after.users.dom().contains(id) implies after.users[
                id
            ].wf() by {
                assert(state.users.dom().contains(id));
            }
        },
    }
}

/// Handling a message keeps control exclusive, unless the pass that the
/// message triggers finds a holder whose claim has lapsed.
pub proof fn lemma_message_keeps_exclusive(
    state: StateView,
    message: ClientMessageView,
    user: Id,
    now: u64,
)
    requires
        state.wf(),
        state.exclusive(),
        !state.holder_lapsed(now),
    ensures
        state.handle_client_message(message, user, now).state.exclusive(),
{
    let after = state.handle_client_message(message, user, now).state;
    match message {
        ClientMessageView::RequestAccess => {
            crate::queue::lemma_add_user(state.queue, user);
            let joined = StateView { queue: state.queue.add_user(user), ..state };
            crate::arbiter::lemma_pass_keeps_exclusive(joined, now);
        },
        ClientMessageView::Control { action } => {
            assert forall|id: Id| #[trigger]
                after.users.dom().contains(id) && after.users[id].has_control implies
                after.queue.active == Some(id) by {
                assert(state.users.dom().contains(id));
                assert(state.users[id].has_control);
            }
        },
        ClientMessageView::ReleaseControl => {
            if state.users.dom().contains(user) && state.users[user].has_control {
                let released = StateView {
                    users: state.users.insert(user, state.users[user].revoke_control()),
                    queue: state.queue.deactivate(),
                    ..state
                };
                assert forall|id: Id| #[trigger]
                    released.users.dom().contains(id) implies !released.users[id].has_control by {
                    if id != user {
                        assert(state.users.dom().contains(id));
                    }
                }
                crate::arbiter::lemma_pass_keeps_exclusive(released, now);
            }
        },
        ClientMessageView::GetUserId => {},
        ClientMessageView::UserDisconnected { user_id } => {
            assert forall|id: Id| #[trigger]
                after.users.dom().contains(id) && after.users[id].has_control implies
                after.queue.active == Some(id) by {
                assert(state.users.dom().contains(id));
                assert(state.users[id].has_control);
            }
        },
    }
}

/// Whoever asks for access is told where it stands. A sender that waits
/// after asking, whether it joined just now or waited already, is told its
/// own rank, which for one that joined just now is the length of the
/// waiting list; asking again moves nobody.
pub proof fn lemma_request_tells_own_rank(state: StateView, user: Id, now: u64)
    requires
        state.wf(),
        state.senders.contains(user),
        state.queue.active != Some(user),
    ensures
        ({
            let joined = state.queue.add_user(user);
            let first = state.request_access(user, now).effects[0];
            &&& joined.waiting.contains(user)
            &&& 1 <= joined.position(user).unwrap() <= joined.waiting.len()
            &&& joined.waiting[joined.position(user).unwrap() - 1] == user
            &&& first == (EffectView::Send {
                user_id: user,
                message: ServerMessageView::QueuePosition {
                    user_id: user,
                    position: joined.position(user).unwrap(),
                },
            })
            &&& state.queue.waiting.contains(user) ==> joined == state.queue
            &&& !state.queue.waiting.contains(user) ==> joined.position(user) == Some(
                joined.waiting.len() as int,
            )
        }),
{
    crate::queue::lemma_add_user(state.queue, user);
    let joined = state.queue.add_user(user);
    crate::queue::lemma_positions_dense(joined);
    if !state.queue.waiting.contains(user) {
        let last = joined.waiting.len() - 1;
        assert(joined.waiting[last] == user);
        assert(joined.position(joined.waiting[last]) == Some(last + 1));
    } else {
        assert(joined.knows(user));
    }
    assert(joined.waiting.contains(user));
}

} // verus!
