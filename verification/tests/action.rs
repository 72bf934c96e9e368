use turret_control::action::Action;
use turret_control::action::ProtoAction;
use turret_control::action::Turret;
use turret_control::device::DispatchError;
use turret_control::device::GrpcDeviceServer;
use turret_control::link::link_start;
use turret_control::link::link_step;
use turret_control::link::LinkAction;
use turret_control::link::LinkEvent;
use turret_control::link::LinkState;
use turret_control::link::RETRY_INTERVAL_MS;
use turret_control::sink::ActionService;

#[test]
fn action_tokens() {
    assert_eq!(Turret::action_to_command(Action::Right), "H1");
    assert_eq!(Turret::action_to_command(Action::Left), "H-1");
    assert_eq!(Turret::action_to_command(Action::Up), "V-1");
    assert_eq!(Turret::action_to_command(Action::Down), "V1");
    assert_eq!(Turret::action_to_command(Action::Fire), "FIRE");
}

#[test]
fn carried_actions_convert_both_ways() {
    let pairs = [
        (Action::Right, ProtoAction::Right),
        (Action::Left, ProtoAction::Left),
        (Action::Up, ProtoAction::Up),
        (Action::Down, ProtoAction::Down),
        (Action::Fire, ProtoAction::Fire),
    ];
    for (action, carried) in pairs {
        assert_eq!(ProtoAction::from(action), carried);
        assert_eq!(Action::from(carried), action);
    }
}

#[test]
fn sink_writes_newline_terminated_tokens() {
    let mut sink = ActionService::new();
    assert_eq!(sink.send_action_at(Action::Right, 0), Some("H1\n".to_string()));
    assert_eq!(sink.send_action_at(Action::Left, 300), Some("H-1\n".to_string()));
    assert_eq!(sink.send_action_at(Action::Up, 600), Some("V-1\n".to_string()));
    assert_eq!(sink.send_action_at(Action::Down, 900), Some("V1\n".to_string()));
    assert_eq!(sink.send_action_at(Action::Fire, 1_200), Some("FIRE\n".to_string()));
}

#[test]
fn sink_cooldown_is_300_ms_between_accepted_actions() {
    let mut sink = ActionService::new();
    assert_eq!(sink.send_action_at(Action::Fire, 1_000), Some("FIRE\n".to_string()));
    assert_eq!(sink.send_action_at(Action::Fire, 1_050), None);
    assert_eq!(sink.send_action_at(Action::Left, 1_299), None);
    assert_eq!(sink.send_action_at(Action::Fire, 1_300), Some("FIRE\n".to_string()));
    assert_eq!(sink.send_action_at(Action::Fire, 1_599), None);
    assert_eq!(sink.send_action_at(Action::Fire, 1_600), Some("FIRE\n".to_string()));
}

#[test]
fn sink_rejected_action_does_not_restart_cooldown() {
    let mut sink = ActionService::new();
    assert!(sink.send_action_at(Action::Up, 0).is_some());
    assert!(sink.send_action_at(Action::Up, 200).is_none());
    assert!(sink.send_action_at(Action::Up, 300).is_some());
}

#[test]
fn sink_first_action_on_its_own_clock_goes_through() {
    let mut sink = ActionService::new();
    assert_eq!(sink.send_action(Action::Fire), Some("FIRE\n".to_string()));
    assert_eq!(sink.send_action(Action::Fire), None);
}

#[test]
fn device_server_acknowledges_the_request() {
    let mut server = GrpcDeviceServer::new(ActionService::new());
    let served = server.do_action_at(ProtoAction::Down, 10);
    assert_eq!(served.line, Some("V1\n".to_string()));
    assert_eq!(served.reply, ProtoAction::Down);
    let served = server.do_action_at(ProtoAction::Fire, 20);
    assert_eq!(served.line, None);
    assert_eq!(served.reply, ProtoAction::Fire);
    let served = server.do_action_at(ProtoAction::Fire, 310);
    assert_eq!(served.line, Some("FIRE\n".to_string()));
    assert_eq!(served.reply, ProtoAction::Fire);
}

#[test]
fn device_server_on_its_own_clock() {
    let mut server = GrpcDeviceServer::new(ActionService::new());
    let served = server.do_action(ProtoAction::Left);
    assert_eq!(served.line, Some("H-1\n".to_string()));
    assert_eq!(served.reply, ProtoAction::Left);
}

#[test]
fn link_retries_at_fixed_interval_until_connected() {
    assert_eq!(RETRY_INTERVAL_MS, 2_000);
    let mut state = link_start();
    assert_eq!(state, LinkState::Disconnected { failures: 0 });
    for attempt in 0..5u64 {
        let (next, action) = link_step(state, LinkEvent::Ready);
        assert_eq!(next, LinkState::Connecting { failures: attempt });
        assert_eq!(action, LinkAction::Connect);
        let (next, action) = link_step(next, LinkEvent::Failed);
        assert_eq!(next, LinkState::Disconnected { failures: attempt + 1 });
        assert_eq!(action, LinkAction::Wait { millis: 2_000 });
        state = next;
    }
    let (state, action) = link_step(state, LinkEvent::Ready);
    assert_eq!(action, LinkAction::Connect);
    let (state, action) = link_step(state, LinkEvent::Established);
    assert_eq!(state, LinkState::Connected);
    assert_eq!(action, LinkAction::Serve);
}

#[test]
fn link_ignores_events_that_do_not_fit() {
    let connected = LinkState::Connected;
    for event in [LinkEvent::Ready, LinkEvent::Established, LinkEvent::Failed] {
        assert_eq!(link_step(connected, event), (connected, LinkAction::Nothing));
    }
    let idle = LinkState::Disconnected { failures: 3 };
    assert_eq!(link_step(idle, LinkEvent::Failed), (idle, LinkAction::Nothing));
    assert_eq!(link_step(idle, LinkEvent::Established), (idle, LinkAction::Nothing));
    let trying = LinkState::Connecting { failures: 3 };
    assert_eq!(link_step(trying, LinkEvent::Ready), (trying, LinkAction::Nothing));
}

#[test]
fn link_failure_count_stops_at_the_largest_number() {
    let trying = LinkState::Connecting { failures: u64::MAX };
    assert_eq!(
        link_step(trying, LinkEvent::Failed),
        (LinkState::Disconnected { failures: u64::MAX }, LinkAction::Wait { millis: 2_000 })
    );
}

#[test]
fn device_call_fails_only_when_a_write_fails() {
    let mut server = GrpcDeviceServer::new(ActionService::new());
    let served = server.do_action_at(ProtoAction::Up, 0);
    assert!(served.line.is_some());
    assert_eq!(served.conclude(true), Ok(ProtoAction::Up));
    assert_eq!(served.conclude(false), Err(DispatchError::WriteFailed));
    let suppressed = server.do_action_at(ProtoAction::Up, 1);
    assert!(suppressed.line.is_none());
    assert_eq!(suppressed.conclude(false), Ok(ProtoAction::Up));
    assert_eq!(suppressed.conclude(true), Ok(ProtoAction::Up));
}
