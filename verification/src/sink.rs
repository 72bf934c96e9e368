//! The device layer of the action sink: a cooldown limiter of its own in front
//! of the actuator, whatever the callers have already enforced, and the
//! encoding of what passes it.

use crate::action::command_line;
use crate::action::Action;
use crate::action::Turret;
use crate::clock::Clock;
use crate::session::cooldown_elapsed;
use crate::session::cooldown_over;
use vstd::prelude::*;
use vstd::string::StringExecFns;

verus! {

/// The rate limiter in front of the actuator.
pub struct ActionService {
    last_action: Option<u64>,
    clock: Clock,
}

impl View for ActionService {
    type V = Option<u64>;

    /// The moment of the last action that was let through.
    closed spec fn view(&self) -> Option<u64> {
        self.last_action
    }
}

/// What offering `action` at `now` does to a limiter whose last stamp is
/// `before`: if the cooldown is over, the stamp becomes `now` and the line
/// of the action goes out; otherwise the stamp stays and nothing goes out.
pub open spec fn offered(
    before: Option<u64>,
    action: Action,
    now: u64,
    after: Option<u64>,
    line: Option<String>,
) -> bool {
    if cooldown_over(before, now as int) {
        after == Some(now) && (line matches Some(text) && text@ == command_line(action))
    } else {
        after == before && line is None
    }
}

impl ActionService {
    /// A limiter that has let nothing through yet, with a clock of its own
    /// that starts now.
    pub fn new() -> (service: Self)
        ensures
            service@ is None,
    {
        ActionService { last_action: None, clock: Clock::start() }
    }

    /// Offers `action` at the present reading of the limiter's clock: what
    /// [`ActionService::send_action_at`] does at that reading.
    pub fn send_action(&mut self, action: Action) -> (line: Option<String>)
        ensures
            exists|now: u64| #[trigger] offered(old(self)@, action, now, final(self)@, line),
            old(self)@ is None ==> line is Some,
    {
        let now = self.clock.now_ms();
        let line = self.send_action_at(action, now);
        assert(offered(old(self)@, action, now, self@, line));
        line
    }

    /// Offers `action` at `now`. If the cooldown has passed since the last
    /// action that went through, or none has yet, the limiter stamps `now`
    /// and returns the line to write and flush on the command channel;
    /// otherwise it returns `None` and nothing is to be written.
    pub fn send_action_at(&mut self, action: Action, now: u64) -> (line: Option<String>)
        ensures
            offered(old(self)@, action, now, final(self)@, line),
    {
        if !cooldown_elapsed(self.last_action, now) {
            return None;
        }
        self.last_action = Some(now);
        let command = Turret::action_to_command(action);
        proof {
            reveal_strlit("\n");
        }
        let line = command.concat("\n");
        assert(line@ =~= command_line(action));
        Some(line)
    }
}

/// Of two actions offered less than the cooldown apart, the second is not
/// let through if the first was: after an action went through at `first`,
/// one offered at `second` goes through exactly if at least the cooldown
/// has passed.
pub proof fn lemma_cooldown_spacing(first: u64, second: u64)
    ensures
        cooldown_over(None, first as int),
        cooldown_over(Some(first), second as int) <==> second - first
            >= crate::session::ACTION_COOLDOWN_MS,
{
}

} // verus!
