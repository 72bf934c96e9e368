//! The server-side record of one connected client: whether it holds
//! control, since when, and when it last acted.
//!
//! Instants are whole milliseconds on a monotonic clock. A session has a
//! clock of its own, started when the session is made, which `grant_control`,
//! `is_control_expired`, `can_do_action` and `record_action` read; their `_at`
//! forms take the reading instead, for a caller that keeps the time of many
//! sessions on one clock. One session is driven in one of the two ways
//! throughout.

use crate::clock::Clock;
use crate::queue::Id;
use vstd::prelude::*;

verus! {

/// The least spacing, in milliseconds, between two actions that are let
/// through.
pub const ACTION_COOLDOWN_MS: u64 = 300;

/// The time from `since` to `now`; zero if `now` is the earlier of the two.
pub open spec fn elapsed_ms(since: int, now: int) -> int {
    if now >= since {
        now - since
    } else {
        0
    }
}

/// Whether an action is let through at `now` when the last one that was
/// let through is `last`: always the first time, afterwards once the
/// cooldown has passed.
pub open spec fn cooldown_over(last: Option<u64>, now: int) -> bool {
    match last {
        Some(t) => elapsed_ms(t as int, now) >= ACTION_COOLDOWN_MS,
        None => true,
    }
}

/// The mathematical content of a [`UserSession`].
pub struct SessionView {
    pub id: Id,
    pub has_control: bool,
    pub control_granted_at: Option<u64>,
    pub last_action_at: Option<u64>,
    /// The longest time control may be held, in seconds.
    pub session_ttl: u64,
}

impl SessionView {
    /// A fresh session: no control, no action yet.
    pub open spec fn fresh(id: Id, session_ttl_sec: u64) -> SessionView {
        SessionView {
            id,
            has_control: false,
            control_granted_at: None,
            last_action_at: None,
            session_ttl: session_ttl_sec,
        }
    }

    /// The grant is stamped exactly while control is held.
    pub open spec fn wf(self) -> bool {
        self.has_control <==> self.control_granted_at is Some
    }

    /// The session after control was granted at `now`.
    pub open spec fn grant_control(self, now: u64) -> SessionView {
        SessionView { has_control: true, control_granted_at: Some(now), ..self }
    }

    /// The session after control was taken back.
    pub open spec fn revoke_control(self) -> SessionView {
        SessionView { has_control: false, control_granted_at: None, ..self }
    }

    /// Control was granted and has been held for longer than the TTL.
    pub open spec fn is_control_expired(self, now: int) -> bool {
        self.control_granted_at matches Some(t) && elapsed_ms(t as int, now) > self.session_ttl
            * 1000
    }

    /// The per-session cooldown lets an action through at `now`.
    pub open spec fn can_do_action(self, now: int) -> bool {
        cooldown_over(self.last_action_at, now)
    }

    /// The session after an action was let through at `now`.
    pub open spec fn record_action(self, now: u64) -> SessionView {
        SessionView { last_action_at: Some(now), ..self }
    }

    /// Control is held and has not expired: the session may issue actions.
    pub open spec fn may_act(self, now: int) -> bool {
        self.has_control && !self.is_control_expired(now)
    }
}

/// Whether the cooldown lets an action through at `now` when the last one
/// that was let through is `last`.
pub fn cooldown_elapsed(last: Option<u64>, now: u64) -> (open: bool)
    ensures
        open == cooldown_over(last, now as int),
{
    match last {
        Some(t) => now >= t && now - t >= ACTION_COOLDOWN_MS,
        None => true,
    }
}

/// One connected client.
#[derive(Debug)]
pub struct UserSession {
    pub id: String,
    pub has_control: bool,
    pub control_granted_at: Option<u64>,
    pub(crate) last_action_at: Option<u64>,
    pub(crate) session_ttl: u64,
    pub(crate) clock: Clock,
}

impl View for UserSession {
    type V = SessionView;

    open(crate) spec fn view(&self) -> SessionView {
        SessionView {
            id: self.id@,
            has_control: self.has_control,
            control_granted_at: self.control_granted_at,
            last_action_at: self.last_action_at,
            session_ttl: self.session_ttl,
        }
    }
}

impl Clone for UserSession {
    fn clone(&self) -> (copy: Self)
        ensures
            copy@ == self@,
    {
        UserSession {
            id: self.id.clone(),
            has_control: self.has_control,
            control_granted_at: self.control_granted_at,
            last_action_at: self.last_action_at,
            session_ttl: self.session_ttl,
            clock: self.clock,
        }
    }
}

impl UserSession {
    /// The invariant of a session: see [`SessionView::wf`].
    pub open spec fn wf(&self) -> bool {
        self@.wf()
    }

    /// A session for `user_id` that may hold control for at most
    /// `session_ttl_sec` seconds at a time. Its clock starts now.
    pub fn new(user_id: String, session_ttl_sec: u64) -> (session: Self)
        ensures
            session@ == SessionView::fresh(user_id@, session_ttl_sec),
            session.wf(),
    {
        UserSession {
            id: user_id,
            has_control: false,
            control_granted_at: None,
            last_action_at: None,
            session_ttl: session_ttl_sec,
            clock: Clock::start(),
        }
    }

    /// Gives the session control, stamped with the present reading of its
    /// clock.
    pub fn grant_control(&mut self)
        ensures
            exists|now: u64| final(self)@ == #[trigger] old(self)@.grant_control(now),
            final(self).wf(),
    {
        let now = self.clock.now_ms();
        self.grant_control_at(now);
    }

    /// Gives the session control, stamped `now`.
    pub fn grant_control_at(&mut self, now: u64)
        ensures
            final(self)@ == old(self)@.grant_control(now),
            final(self).wf(),
    {
        self.has_control = true;
        self.control_granted_at = Some(now);
    }

    /// Takes control back and clears the stamp.
    pub fn revoke_control(&mut self)
        ensures
            final(self)@ == old(self)@.revoke_control(),
            final(self).wf(),
    {
        self.has_control = false;
        self.control_granted_at = None;
    }

    /// Whether control was granted and, at the present reading of the
    /// session's clock, has been held for longer than the TTL. A session
    /// that does not hold control is never expired.
    pub fn is_control_expired(&self) -> (expired: bool)
        ensures
            exists|now: u64| expired == #[trigger] self@.is_control_expired(now as int),
            self@.control_granted_at is None ==> !expired,
            self.wf() && !self@.has_control ==> !expired,
    {
        let now = self.clock.now_ms();
        self.is_control_expired_at(now)
    }

    /// Whether control was granted and, at `now`, has been held for longer
    /// than the TTL.
    pub fn is_control_expired_at(&self, now: u64) -> (expired: bool)
        ensures
            expired == self@.is_control_expired(now as int),
            self.wf() && !self@.has_control ==> !expired,
    {
        match self.control_granted_at {
            Some(t) => {
                let held: u64 = if now >= t {
                    now - t
                } else {
                    0
                };
                let limit: u128 = (self.session_ttl as u128) * 1000;
                (held as u128) > limit
            },
            None => false,
        }
    }

    /// Whether the per-session cooldown lets an action through at the
    /// present reading of the session's clock. Before the first recorded
    /// action it always does.
    pub fn can_do_action(&self) -> (open: bool)
        ensures
            exists|now: u64| open == #[trigger] self@.can_do_action(now as int),
            self@.last_action_at is None ==> open,
    {
        let now = self.clock.now_ms();
        self.can_do_action_at(now)
    }

    /// Whether the per-session cooldown lets an action through at `now`.
    pub fn can_do_action_at(&self, now: u64) -> (open: bool)
        ensures
            open == self@.can_do_action(now as int),
    {
        cooldown_elapsed(self.last_action_at, now)
    }

    /// Stamps the present reading of the session's clock as the moment of
    /// the last action that was let through.
    pub fn record_action(&mut self)
        ensures
            exists|now: u64| final(self)@ == #[trigger] old(self)@.record_action(now),
            old(self).wf() ==> final(self).wf(),
    {
        let now = self.clock.now_ms();
        self.record_action_at(now);
    }

    /// Stamps `now` as the moment of the last action that was let through.
    pub fn record_action_at(&mut self, now: u64)
        ensures
            final(self)@ == old(self)@.record_action(now),
            old(self).wf() ==> final(self).wf(),
    {
        self.last_action_at = Some(now);
    }
}

/// A session that does not hold control is never expired. A session that
/// was granted control at `granted_at` is expired at `now` exactly if more
/// than its TTL has passed since: not before, and not at the very moment
/// the TTL is reached.
pub proof fn lemma_expiry(session: SessionView, granted_at: u64, now: u64)
    requires
        session.wf(),
    ensures
        !session.has_control ==> !session.is_control_expired(now as int),
        session.grant_control(granted_at).wf(),
        session.grant_control(granted_at).has_control,
        session.grant_control(granted_at).is_control_expired(now as int) <==> now - granted_at
            > session.session_ttl * 1000,
        !session.revoke_control().has_control,
        !session.revoke_control().is_control_expired(now as int),
{
}

/// The cooldown of a session: before its first action it may act; after an
/// action at `acted_at` it may act again at `now` exactly if at least the
/// cooldown has passed. Control and its stamp play no part, and recording
/// an action leaves them alone.
pub proof fn lemma_cooldown(session: SessionView, acted_at: u64, now: u64)
    ensures
        session.last_action_at is None ==> session.can_do_action(now as int),
        session.record_action(acted_at).can_do_action(now as int) <==> now - acted_at
            >= ACTION_COOLDOWN_MS,
        session.record_action(acted_at).has_control == session.has_control,
        session.record_action(acted_at).control_granted_at == session.control_granted_at,
        session.grant_control(acted_at).can_do_action(now as int) == session.can_do_action(
            now as int,
        ),
{
}

} // verus!
