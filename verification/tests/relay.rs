use turret_control::config::WebConfig;
use turret_control::decimal::decimal_i64;
use turret_control::decimal::decimal_u64;
use turret_control::sdp::check_lowered_offer;
use turret_control::sdp::check_sdp_offer;
use turret_control::sdp::SdpError;
use turret_control::sdp::SdpRequest;
use turret_control::sdp::SdpResponse;
use turret_control::session::UserSession;
use turret_control::state::AppState;
use turret_control::turn::generate_turn_credentials;
use turret_control::turn::get_turn_credentials;
use turret_control::turn::turn_credentials_at;
use turret_control::turn::TurnError;
use turret_control::turn::TurnRequest;

fn relay_config(ttl: i64) -> WebConfig {
    WebConfig::new(
        "relay.example.org".to_string(),
        3478,
        "north-relay-key".to_string(),
        "turret".to_string(),
        ttl,
        30,
    )
}

#[test]
fn config_holds_what_it_was_given() {
    let config = relay_config(3_600);
    assert_eq!(config.turn_realm, "relay.example.org");
    assert_eq!(config.turn_port, 3478);
    assert_eq!(config.turn_secret_key, "north-relay-key");
    assert_eq!(config.turn_user_name, "turret");
    assert_eq!(config.turn_ttl, 3_600);
    assert_eq!(config.controller_ttl, 30);
    let copy = config.clone();
    assert_eq!(copy.turn_realm, config.turn_realm);
    assert_eq!(copy.turn_ttl, config.turn_ttl);
}

#[test]
fn session_ttl_is_never_negative() {
    assert_eq!(relay_config(1).session_ttl_secs(), 30);
    let mut config = relay_config(1);
    config.controller_ttl = 0;
    assert_eq!(config.session_ttl_secs(), 0);
    config.controller_ttl = -5;
    assert_eq!(config.session_ttl_secs(), 0);
    config.controller_ttl = i64::MIN;
    assert_eq!(config.session_ttl_secs(), 0);
    config.controller_ttl = i64::MAX;
    assert_eq!(config.session_ttl_secs(), 9_223_372_036_854_775_807);
}

#[test]
fn decimal_text() {
    assert_eq!(decimal_u64(0), "0");
    assert_eq!(decimal_u64(7), "7");
    assert_eq!(decimal_u64(10), "10");
    assert_eq!(decimal_u64(1_700_003_600), "1700003600");
    assert_eq!(decimal_u64(u64::MAX), "18446744073709551615");
    assert_eq!(decimal_i64(0), "0");
    assert_eq!(decimal_i64(-1), "-1");
    assert_eq!(decimal_i64(-120), "-120");
    assert_eq!(decimal_i64(i64::MAX), "9223372036854775807");
    assert_eq!(decimal_i64(i64::MIN), "-9223372036854775808");
}

#[test]
fn credentials_at_a_given_moment() {
    let issued = turn_credentials_at(&relay_config(3_600), 1_700_000_000);
    assert_eq!(issued.username, "1700003600:turret");
    assert_eq!(issued.credential, "YZkoOiyqzbCqQ3l+EpwQDOis72k=");
    assert_eq!(
        issued.urls,
        vec![
            "turn:relay.example.org:3478?transport=udp".to_string(),
            "turn:relay.example.org:3478?transport=tcp".to_string(),
        ]
    );
}

#[test]
fn credentials_with_empty_secret_and_name() {
    let config = WebConfig::new("r".to_string(), -1, String::new(), String::new(), 60, 0);
    let issued = turn_credentials_at(&config, 0);
    assert_eq!(issued.username, "60:");
    assert_eq!(issued.credential, "n9DLbZmPVTJp65YL0Z5vQ5hjEnA=");
    assert_eq!(issued.urls[0], "turn:r:-1?transport=udp");
    assert_eq!(issued.urls[1], "turn:r:-1?transport=tcp");
}

#[test]
fn credentials_take_text_as_utf8() {
    let config =
        WebConfig::new("r".to_string(), 1, "kéy".to_string(), "opérateur".to_string(), -10, 0);
    let issued = turn_credentials_at(&config, 5);
    assert_eq!(issued.username, "-5:opérateur");
    assert_eq!(issued.credential, "LNPEnzVbtenTNQAmkcFdWO8y5VE=");
}

#[test]
fn credentials_are_issued_exactly_while_the_expiry_fits() {
    let issued = generate_turn_credentials(relay_config(3_600), 1_700_000_000).unwrap();
    let same = turn_credentials_at(&relay_config(3_600), 1_700_000_000);
    assert_eq!(issued.username, "1700003600:turret");
    assert_eq!(issued.username, same.username);
    assert_eq!(issued.credential, same.credential);
    assert_eq!(issued.urls, same.urls);

    assert!(generate_turn_credentials(relay_config(i64::MAX), 0).is_some());
    assert!(generate_turn_credentials(relay_config(i64::MAX), 1).is_none());
    assert!(generate_turn_credentials(relay_config(i64::MIN), 0).is_some());
    assert!(generate_turn_credentials(relay_config(i64::MIN), -1).is_none());
    assert!(generate_turn_credentials(relay_config(-1), i64::MIN).is_none());
    let early = generate_turn_credentials(relay_config(10), -20).unwrap();
    assert_eq!(early.username, "-10:turret");
}

#[test]
fn credentials_only_for_clients_with_a_session() {
    let mut state = AppState::new();
    state.add_user(UserSession::new("a".to_string(), 30));
    let config = relay_config(3_600);

    let request = TurnRequest { client_id: "a".to_string() };
    let answer = get_turn_credentials(&state, &config, &request, 1_700_000_000).unwrap();
    assert_eq!(answer.turn.username, "1700003600:turret");
    assert_eq!(answer.turn.credential, "YZkoOiyqzbCqQ3l+EpwQDOis72k=");

    let stranger = TurnRequest { client_id: "zed".to_string() };
    assert_eq!(
        get_turn_credentials(&state, &config, &stranger, 1_700_000_000).err(),
        Some(TurnError::SessionNotFound)
    );
    assert_eq!(
        get_turn_credentials(&state, &relay_config(1), &request, i64::MAX).err(),
        Some(TurnError::ExpiryOutOfRange)
    );
    assert_eq!(
        get_turn_credentials(&state, &relay_config(1), &stranger, i64::MAX).err(),
        Some(TurnError::SessionNotFound)
    );
}

fn sdp_request(client_id: &str, sdp_type: &str) -> SdpRequest {
    SdpRequest {
        client_id: client_id.to_string(),
        sdp: "v=0".to_string(),
        sdp_type: sdp_type.to_string(),
    }
}

#[test]
fn negotiation_opens_for_an_offer_from_a_client_with_a_session() {
    let mut state = AppState::new();
    state.add_user(UserSession::new("a".to_string(), 30));
    for kind in ["offer", "OFFER", "Offer", "oFfEr"] {
        assert_eq!(check_sdp_offer(&state, &sdp_request("a", kind)), Ok(()));
        assert_eq!(
            check_sdp_offer(&state, &sdp_request("zed", kind)),
            Err(SdpError::SessionNotFound)
        );
    }
    for kind in ["answer", "", "offer ", " offer", "offers", "pranswer", "\u{212a}offer"] {
        assert_eq!(check_sdp_offer(&state, &sdp_request("a", kind)), Err(SdpError::NotAnOffer));
        assert_eq!(check_sdp_offer(&state, &sdp_request("zed", kind)), Err(SdpError::NotAnOffer));
    }
}

#[test]
fn lowered_kind_is_compared_with_the_word_offer() {
    assert_eq!(check_lowered_offer(&"offer".to_string(), true), Ok(()));
    assert_eq!(check_lowered_offer(&"offer".to_string(), false), Err(SdpError::SessionNotFound));
    assert_eq!(check_lowered_offer(&"OFFER".to_string(), true), Err(SdpError::NotAnOffer));
    assert_eq!(check_lowered_offer(&"answer".to_string(), false), Err(SdpError::NotAnOffer));
    assert_eq!(check_lowered_offer(&String::new(), true), Err(SdpError::NotAnOffer));
}

#[test]
fn negotiation_answer_holds_what_it_was_given() {
    let response = SdpResponse {
        sdp_type: "answer".to_string(),
        sdp: "v=0".to_string(),
        client_id: "a".to_string(),
    };
    assert_eq!(response.sdp_type, "answer");
    assert_eq!(response.sdp, "v=0");
    assert_eq!(response.client_id, "a");
}
