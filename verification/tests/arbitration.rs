use turret_control::action::Action;
use turret_control::message::ClientMessage;
use turret_control::message::ServerMessage;
use turret_control::router::frame_step;
use turret_control::router::Frame;
use turret_control::router::FrameStep;
use turret_control::session::UserSession;
use turret_control::sink::ActionService;
use turret_control::state::AppState;
use turret_control::state::Effect;

fn connect(state: &mut AppState, id: &str, ttl_sec: u64) {
    state.add_user(UserSession::new(id.to_string(), ttl_sec));
    state.register_sender(id.to_string());
}

fn granted(id: &str) -> Effect {
    Effect::Send {
        user_id: id.to_string(),
        message: ServerMessage::AccessGranted { user_id: id.to_string() },
    }
}

fn denied(id: &str) -> Effect {
    Effect::Send {
        user_id: id.to_string(),
        message: ServerMessage::AccessDenied { user_id: id.to_string() },
    }
}

fn rank(id: &str, position: usize) -> Effect {
    Effect::Send {
        user_id: id.to_string(),
        message: ServerMessage::QueuePosition { user_id: id.to_string(), position },
    }
}

fn echo(id: &str, action: Action) -> Effect {
    Effect::Send {
        user_id: id.to_string(),
        message: ServerMessage::ControlAction { user_id: id.to_string(), action },
    }
}

fn dispatch(action: Action) -> Effect {
    Effect::Dispatch { action }
}

fn holder_with_two_waiting() -> AppState {
    let mut state = AppState::new();
    connect(&mut state, "a", 30);
    connect(&mut state, "b", 30);
    connect(&mut state, "c", 30);
    state.handle_client_message_at(ClientMessage::RequestAccess, "a", 0);
    state.handle_client_message_at(ClientMessage::RequestAccess, "b", 10);
    state.handle_client_message_at(ClientMessage::RequestAccess, "c", 20);
    state
}

#[test]
fn scenario_request_wait_release_promote() {
    let mut state = AppState::new();
    connect(&mut state, "a", 30);
    connect(&mut state, "b", 30);
    connect(&mut state, "c", 30);

    let effects = state.handle_client_message_at(ClientMessage::RequestAccess, "a", 0);
    assert_eq!(effects, vec![rank("a", 1), granted("a")]);
    assert!(state.get_user("a").unwrap().has_control);

    let effects = state.handle_client_message_at(ClientMessage::RequestAccess, "b", 10);
    assert_eq!(effects, vec![rank("b", 1), rank("b", 1)]);

    let effects = state.handle_client_message_at(ClientMessage::RequestAccess, "c", 20);
    assert_eq!(effects, vec![rank("c", 2), rank("b", 1), rank("c", 2)]);

    let effects = state.handle_client_message_at(ClientMessage::ReleaseControl, "a", 30);
    assert_eq!(effects, vec![granted("b"), rank("c", 1)]);
    assert!(!state.get_user("a").unwrap().has_control);
    assert!(state.get_user("b").unwrap().has_control);
    assert_eq!(state.get_user("b").unwrap().control_granted_at, Some(30));
}

#[test]
fn scenario_holder_disconnects_and_next_is_promoted() {
    let mut state = holder_with_two_waiting();
    let effects = state.disconnect_at("a", 100);
    assert_eq!(effects, vec![granted("b"), rank("c", 1)]);
    assert!(state.get_user("a").is_none());
    assert!(state.get_user("b").unwrap().has_control);
}

#[test]
fn scenario_holder_removed_then_tick_promotes() {
    let mut state = holder_with_two_waiting();
    let effects = state.handle_client_message_at(
        ClientMessage::UserDisconnected { user_id: "a".to_string() },
        "a",
        100,
    );
    assert_eq!(effects, vec![]);
    let effects = state.process_queue_at(1_000);
    assert_eq!(effects, vec![granted("b"), rank("c", 1)]);
}

#[test]
fn user_disconnected_is_idempotent() {
    let mut state = holder_with_two_waiting();
    let gone = ClientMessage::UserDisconnected { user_id: "b".to_string() };
    assert_eq!(state.handle_client_message_at(gone.clone(), "c", 100), vec![]);
    assert_eq!(state.handle_client_message_at(gone, "c", 101), vec![]);
    assert!(state.get_user("b").is_none());
    assert_eq!(state.process_queue_at(200), vec![rank("c", 1)]);
}

#[test]
fn pass_with_nothing_to_change_is_a_no_op() {
    let mut state = AppState::new();
    assert_eq!(state.process_queue_at(0), vec![]);
    assert_eq!(state.process_queue_at(5), vec![]);

    let mut state = holder_with_two_waiting();
    for now in [30u64, 31, 1_000, 30_000] {
        assert_eq!(state.process_queue_at(now), vec![rank("b", 1), rank("c", 2)]);
        assert!(state.get_user("a").unwrap().has_control);
        assert_eq!(state.get_user("a").unwrap().control_granted_at, Some(0));
    }
}

#[test]
fn holder_expires_after_ttl_and_next_tick_promotes() {
    let mut state = holder_with_two_waiting();
    assert_eq!(state.process_queue_at(30_000), vec![rank("b", 1), rank("c", 2)]);
    assert_eq!(state.process_queue_at(30_001), vec![denied("a"), rank("b", 1), rank("c", 2)]);
    assert_eq!(state.process_queue_at(30_002), vec![granted("b"), rank("c", 1)]);
    assert_eq!(state.get_user("b").unwrap().control_granted_at, Some(30_002));
}

#[test]
fn expired_holder_keeps_its_flag_but_is_denied() {
    let mut state = holder_with_two_waiting();
    state.process_queue_at(30_001);
    let stale = state.get_user("a").unwrap();
    assert!(stale.has_control);
    assert_eq!(stale.control_granted_at, Some(0));
    let fire = ClientMessage::Control { action: Action::Fire };
    let effects = state.handle_client_message_at(fire, "a", 30_002);
    assert_eq!(effects, vec![denied("a")]);
}

#[test]
fn holder_without_session_is_expired_on_next_pass() {
    let mut state = AppState::new();
    connect(&mut state, "b", 30);
    let effects = state.handle_client_message_at(ClientMessage::RequestAccess, "ghost", 0);
    assert_eq!(effects, vec![]);
    let effects = state.handle_client_message_at(ClientMessage::RequestAccess, "b", 1);
    assert_eq!(effects, vec![rank("b", 1), rank("b", 1)]);
    let effects = state.process_queue_at(2);
    assert_eq!(effects, vec![granted("b")]);
}

#[test]
fn asking_again_is_told_own_rank_and_moves_nobody() {
    let mut state = holder_with_two_waiting();
    connect(&mut state, "d", 30);
    state.handle_client_message_at(ClientMessage::RequestAccess, "d", 30);
    let effects = state.handle_client_message_at(ClientMessage::RequestAccess, "b", 40);
    assert_eq!(effects, vec![rank("b", 1), rank("b", 1), rank("c", 2), rank("d", 3)]);
    let effects = state.handle_client_message_at(ClientMessage::RequestAccess, "c", 41);
    assert_eq!(effects, vec![rank("c", 2), rank("b", 1), rank("c", 2), rank("d", 3)]);
    let effects = state.handle_client_message_at(ClientMessage::RequestAccess, "d", 42);
    assert_eq!(effects, vec![rank("d", 3), rank("b", 1), rank("c", 2), rank("d", 3)]);
}

#[test]
fn holder_asking_again_is_told_the_waiting_length() {
    let mut state = holder_with_two_waiting();
    let effects = state.handle_client_message_at(ClientMessage::RequestAccess, "a", 41);
    assert_eq!(effects, vec![rank("a", 2), rank("b", 1), rank("c", 2)]);
    assert!(state.get_user("a").unwrap().has_control);
}

#[test]
fn control_without_control_is_denied() {
    let mut state = holder_with_two_waiting();
    let effects =
        state.handle_client_message_at(ClientMessage::Control { action: Action::Left }, "b", 50);
    assert_eq!(effects, vec![denied("b")]);
    let effects =
        state.handle_client_message_at(ClientMessage::Control { action: Action::Left }, "zed", 50);
    assert_eq!(effects, vec![]);
}

#[test]
fn two_controls_within_cooldown_dispatch_once_and_echo_twice() {
    let mut state = holder_with_two_waiting();
    let effects =
        state.handle_client_message_at(ClientMessage::Control { action: Action::Up }, "a", 1_000);
    assert_eq!(effects, vec![dispatch(Action::Up), echo("a", Action::Up)]);
    let effects =
        state.handle_client_message_at(ClientMessage::Control { action: Action::Down }, "a", 1_299);
    assert_eq!(effects, vec![echo("a", Action::Down)]);
    let effects =
        state.handle_client_message_at(ClientMessage::Control { action: Action::Down }, "a", 1_300);
    assert_eq!(effects, vec![dispatch(Action::Down), echo("a", Action::Down)]);
}

#[test]
fn suppressed_control_does_not_restart_the_cooldown() {
    let mut state = holder_with_two_waiting();
    let fire = ClientMessage::Control { action: Action::Fire };
    assert_eq!(state.handle_client_message_at(fire.clone(), "a", 0).len(), 2);
    assert_eq!(state.handle_client_message_at(fire.clone(), "a", 100).len(), 1);
    assert_eq!(state.handle_client_message_at(fire.clone(), "a", 200).len(), 1);
    assert_eq!(state.handle_client_message_at(fire, "a", 300).len(), 2);
}

#[test]
fn scenario_fire_twice_then_again_reaches_hardware_twice() {
    let mut state = holder_with_two_waiting();
    let mut sink = ActionService::new();
    let mut lines: Vec<String> = Vec::new();
    let mut echoes = 0;
    for now in [100u64, 150, 550] {
        let fire = ClientMessage::Control { action: Action::Fire };
        let effects = state.handle_client_message_at(fire, "a", now);
        for effect in effects {
            match effect {
                Effect::Dispatch { action } => {
                    if let Some(line) = sink.send_action_at(action, now) {
                        lines.push(line);
                    }
                }
                Effect::Send { message, .. } => {
                    let sent = Effect::Send { user_id: "a".to_string(), message };
                    assert_eq!(sent, echo("a", Action::Fire));
                    echoes += 1;
                }
            }
        }
        if now == 150 {
            assert_eq!(lines, vec!["FIRE\n".to_string()]);
        }
    }
    assert_eq!(lines, vec!["FIRE\n".to_string(), "FIRE\n".to_string()]);
    assert_eq!(echoes, 3);
}

#[test]
fn release_without_control_does_nothing() {
    let mut state = holder_with_two_waiting();
    assert_eq!(state.handle_client_message_at(ClientMessage::ReleaseControl, "b", 50), vec![]);
    assert_eq!(state.handle_client_message_at(ClientMessage::ReleaseControl, "zed", 50), vec![]);
    assert!(state.get_user("a").unwrap().has_control);
    assert_eq!(state.process_queue_at(60), vec![rank("b", 1), rank("c", 2)]);
}

#[test]
fn get_user_id_answers_the_sender() {
    let mut state = holder_with_two_waiting();
    let effects = state.handle_client_message_at(ClientMessage::GetUserId, "c", 50);
    assert_eq!(
        effects,
        vec![Effect::Send {
            user_id: "c".to_string(),
            message: ServerMessage::ResponseUserId { user_id: "c".to_string() },
        }]
    );
    assert_eq!(state.handle_client_message_at(ClientMessage::GetUserId, "zed", 50), vec![]);
}

#[test]
fn closed_channel_is_skipped_for_later_messages() {
    let mut state = holder_with_two_waiting();
    state.sender_closed("b");
    assert_eq!(state.process_queue_at(60), vec![rank("c", 2)]);
    assert_eq!(state.handle_client_message_at(ClientMessage::GetUserId, "b", 61), vec![]);
    let effects = state.handle_client_message_at(ClientMessage::ReleaseControl, "a", 62);
    assert_eq!(effects, vec![rank("c", 1)]);
    assert!(state.get_user("b").unwrap().has_control);
}

#[test]
fn send_message_to_user_needs_a_channel() {
    let mut state = AppState::new();
    state.add_user(UserSession::new("a".to_string(), 30));
    let message = ServerMessage::Error { user_id: "a".to_string(), message: "down".to_string() };
    assert_eq!(state.send_message_to_user("a", message.clone()), None);
    state.register_sender("a".to_string());
    assert_eq!(
        state.send_message_to_user("a", message.clone()),
        Some(Effect::Send { user_id: "a".to_string(), message })
    );
}

#[test]
fn remove_user_forgets_session_place_and_channel() {
    let mut state = holder_with_two_waiting();
    state.remove_user("b");
    assert!(state.get_user("b").is_none());
    assert_eq!(state.process_queue_at(60), vec![rank("c", 1)]);
    state.add_user(UserSession::new("b".to_string(), 30));
    assert_eq!(state.handle_client_message_at(ClientMessage::GetUserId, "b", 61), vec![]);
}

#[test]
fn coordinator_on_its_own_clock() {
    let mut state = AppState::new();
    connect(&mut state, "a", 3_600);
    connect(&mut state, "b", 3_600);
    let effects = state.handle_client_message(ClientMessage::RequestAccess, "a");
    assert_eq!(effects, vec![rank("a", 1), granted("a")]);
    let effects = state.handle_client_message(ClientMessage::RequestAccess, "b");
    assert_eq!(effects, vec![rank("b", 1), rank("b", 1)]);
    assert_eq!(state.process_queue(), vec![rank("b", 1)]);
    let first = state.now_ms();
    let second = state.now_ms();
    assert!(first <= second);
    let effects = state.handle_client_message(ClientMessage::Control { action: Action::Fire }, "a");
    assert_eq!(effects, vec![dispatch(Action::Fire), echo("a", Action::Fire)]);
    let effects = state.disconnect("a");
    assert_eq!(effects, vec![granted("b")]);
}

#[test]
fn frames_are_handled_skipped_or_end_the_connection() {
    assert_eq!(
        frame_step(Frame::Message(ClientMessage::GetUserId)),
        FrameStep::Handle(ClientMessage::GetUserId)
    );
    assert_eq!(frame_step(Frame::Malformed), FrameStep::Skip);
    assert_eq!(frame_step(Frame::Other), FrameStep::Skip);
    assert_eq!(frame_step(Frame::Close), FrameStep::Stop);
    assert_eq!(frame_step(Frame::Failed), FrameStep::Stop);
}

#[test]
fn stale_holder_releasing_clears_the_slot_of_its_successor() {
    let mut state = holder_with_two_waiting();
    state.process_queue_at(30_001);
    assert_eq!(state.process_queue_at(30_002), vec![granted("b"), rank("c", 1)]);
    assert!(state.get_user("a").unwrap().has_control);
    assert!(state.get_user("b").unwrap().has_control);

    let effects = state.handle_client_message_at(ClientMessage::ReleaseControl, "a", 30_003);
    assert_eq!(effects, vec![granted("c")]);
    assert!(!state.get_user("a").unwrap().has_control);
    assert!(state.get_user("b").unwrap().has_control);
    assert!(state.get_user("c").unwrap().has_control);
}

#[test]
fn control_stays_with_one_session_through_ordinary_turns() {
    let mut state = holder_with_two_waiting();
    let holders = |state: &AppState| -> Vec<&'static str> {
        ["a", "b", "c"]
            .into_iter()
            .filter(|id| state.get_user(id).map(|user| user.has_control).unwrap_or(false))
            .collect()
    };
    assert_eq!(holders(&state), vec!["a"]);
    state.handle_client_message_at(ClientMessage::Control { action: Action::Up }, "a", 100);
    state.process_queue_at(200);
    assert_eq!(holders(&state), vec!["a"]);
    state.handle_client_message_at(ClientMessage::ReleaseControl, "a", 300);
    assert_eq!(holders(&state), vec!["b"]);
    state.handle_client_message_at(ClientMessage::RequestAccess, "a", 400);
    assert_eq!(holders(&state), vec!["b"]);
    state.disconnect_at("b", 500);
    assert_eq!(holders(&state), vec!["c"]);
    state.handle_client_message_at(ClientMessage::ReleaseControl, "c", 600);
    assert_eq!(holders(&state), vec!["a"]);
}

#[test]
fn lapsed_holder_delays_the_next_by_one_pass() {
    let mut state = holder_with_two_waiting();
    state.handle_client_message_at(
        ClientMessage::UserDisconnected { user_id: "zed".to_string() },
        "a",
        10,
    );
    assert_eq!(state.process_queue_at(40_000), vec![denied("a"), rank("b", 1), rank("c", 2)]);
    assert_eq!(state.process_queue_at(41_000), vec![granted("b"), rank("c", 1)]);
    assert_eq!(state.process_queue_at(42_000), vec![rank("c", 1)]);
}
