//! The commands the actuator understands and their encoding on the command
//! channel.

use vstd::prelude::*;

verus! {

/// One of the five commands the actuator understands.
#[derive(Copy, Clone, Debug, PartialEq, Eq, Structural)]
pub enum Action {
    Right,
    Left,
    Up,
    Down,
    Fire,
}

/// An action as the device-control call carries it.
#[derive(Copy, Clone, Debug, PartialEq, Eq, Structural)]
pub enum ProtoAction {
    Right,
    Left,
    Up,
    Down,
    Fire,
}

/// The action that a carried action stands for.
pub open spec fn action_of(carried: ProtoAction) -> Action {
    match carried {
        ProtoAction::Right => Action::Right,
        ProtoAction::Left => Action::Left,
        ProtoAction::Up => Action::Up,
        ProtoAction::Down => Action::Down,
        ProtoAction::Fire => Action::Fire,
    }
}

/// The carried form of an action.
pub open spec fn carried_of(action: Action) -> ProtoAction {
    match action {
        Action::Right => ProtoAction::Right,
        Action::Left => ProtoAction::Left,
        Action::Up => ProtoAction::Up,
        Action::Down => ProtoAction::Down,
        Action::Fire => ProtoAction::Fire,
    }
}

impl From<ProtoAction> for Action {
    fn from(a: ProtoAction) -> (action: Self) {
        match a {
            ProtoAction::Right => Action::Right,
            ProtoAction::Left => Action::Left,
            ProtoAction::Up => Action::Up,
            ProtoAction::Down => Action::Down,
            ProtoAction::Fire => Action::Fire,
        }
    }
}

impl vstd::std_specs::convert::FromSpecImpl<ProtoAction> for Action {
    open spec fn obeys_from_spec() -> bool {
        true
    }

    open spec fn from_spec(a: ProtoAction) -> Action {
        action_of(a)
    }
}

impl From<Action> for ProtoAction {
    fn from(a: Action) -> (carried: Self) {
        match a {
            Action::Right => ProtoAction::Right,
            Action::Left => ProtoAction::Left,
            Action::Up => ProtoAction::Up,
            Action::Down => ProtoAction::Down,
            Action::Fire => ProtoAction::Fire,
        }
    }
}

impl vstd::std_specs::convert::FromSpecImpl<Action> for ProtoAction {
    open spec fn obeys_from_spec() -> bool {
        true
    }

    open spec fn from_spec(a: Action) -> ProtoAction {
        carried_of(a)
    }
}

/// Carrying an action and reading it back gives the action, and the other
/// way round.
pub proof fn lemma_carried_round_trip(action: Action, carried: ProtoAction)
    ensures
        action_of(carried_of(action)) == action,
        carried_of(action_of(carried)) == carried,
{
}

/// The text of the command-channel token for `action`, without its line
/// terminator.
pub open spec fn command_token(action: Action) -> Seq<char> {
    match action {
        Action::Right => seq!['H', '1'],
        Action::Left => seq!['H', '-', '1'],
        Action::Up => seq!['V', '-', '1'],
        Action::Down => seq!['V', '1'],
        Action::Fire => seq!['F', 'I', 'R', 'E'],
    }
}

/// The line that goes out on the command channel for `action`: its token
/// and a line feed.
pub open spec fn command_line(action: Action) -> Seq<char> {
    command_token(action).push('\n')
}

/// The pan/tilt/fire actuator.
pub struct Turret;

impl Turret {
    /// Encodes an action as its command-channel token.
    pub fn action_to_command(action: Action) -> (command: String)
        ensures
            command@ == command_token(action),
    {
        match action {
            Action::Right => {
                proof {
                    reveal_strlit("H1");
                }
                assert("H1"@ =~= command_token(action));
                "H1".to_string()
            },
            Action::Left => {
                proof {
                    reveal_strlit("H-1");
                }
                assert("H-1"@ =~= command_token(action));
                "H-1".to_string()
            },
            Action::Up => {
                proof {
                    reveal_strlit("V-1");
                }
                assert("V-1"@ =~= command_token(action));
                "V-1".to_string()
            },
            Action::Down => {
                proof {
                    reveal_strlit("V1");
                }
                assert("V1"@ =~= command_token(action));
                "V1".to_string()
            },
            Action::Fire => {
                proof {
                    reveal_strlit("FIRE");
                }
                assert("FIRE"@ =~= command_token(action));
                "FIRE".to_string()
            },
        }
    }
}

} // verus!
