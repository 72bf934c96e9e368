use turret_control::session::cooldown_elapsed;
use turret_control::session::UserSession;
use turret_control::session::ACTION_COOLDOWN_MS;
use turret_control::store::SessionStore;

#[test]
fn session_starts_without_control() {
    let session = UserSession::new("ann".to_string(), 30);
    assert_eq!(session.id, "ann");
    assert!(!session.has_control);
    assert_eq!(session.control_granted_at, None);
    assert!(!session.is_control_expired_at(0));
    assert!(!session.is_control_expired_at(u64::MAX));
    assert!(session.can_do_action_at(0));
}

#[test]
fn session_expires_only_after_ttl() {
    let mut session = UserSession::new("ann".to_string(), 10);
    session.grant_control_at(5_000);
    assert!(session.has_control);
    assert_eq!(session.control_granted_at, Some(5_000));
    assert!(!session.is_control_expired_at(5_000));
    assert!(!session.is_control_expired_at(14_999));
    assert!(!session.is_control_expired_at(15_000));
    assert!(session.is_control_expired_at(15_001));
    assert!(session.is_control_expired_at(u64::MAX));
}

#[test]
fn session_clock_before_grant_is_not_expired() {
    let mut session = UserSession::new("ann".to_string(), 0);
    session.grant_control_at(5_000);
    assert!(!session.is_control_expired_at(4_000));
    assert!(!session.is_control_expired_at(5_000));
    assert!(session.is_control_expired_at(5_001));
}

#[test]
fn session_with_largest_ttl_never_expires() {
    let mut session = UserSession::new("ann".to_string(), u64::MAX);
    session.grant_control_at(0);
    assert!(!session.is_control_expired_at(u64::MAX));
}

#[test]
fn session_revoke_clears_flag_and_stamp() {
    let mut session = UserSession::new("ann".to_string(), 1);
    session.grant_control_at(100);
    session.revoke_control();
    assert!(!session.has_control);
    assert_eq!(session.control_granted_at, None);
    assert!(!session.is_control_expired_at(1_000_000));
}

#[test]
fn session_cooldown_is_300_ms() {
    assert_eq!(ACTION_COOLDOWN_MS, 300);
    let mut session = UserSession::new("ann".to_string(), 60);
    assert!(session.can_do_action_at(1_000));
    session.record_action_at(1_000);
    assert!(!session.can_do_action_at(1_000));
    assert!(!session.can_do_action_at(1_299));
    assert!(session.can_do_action_at(1_300));
    assert!(session.can_do_action_at(1_301));
    assert!(!session.can_do_action_at(900));
}

#[test]
fn session_cooldown_does_not_depend_on_control() {
    let mut session = UserSession::new("ann".to_string(), 1);
    session.grant_control_at(0);
    session.record_action_at(10_000);
    assert!(session.is_control_expired_at(10_100));
    assert!(!session.can_do_action_at(10_100));
    assert!(session.can_do_action_at(10_300));
    assert!(session.has_control);
}

#[test]
fn session_clone_keeps_everything() {
    let mut session = UserSession::new("ann".to_string(), 7);
    session.grant_control_at(42);
    session.record_action_at(50);
    let copy = session.clone();
    assert_eq!(copy.id, "ann");
    assert!(copy.has_control);
    assert_eq!(copy.control_granted_at, Some(42));
    assert!(!copy.can_do_action_at(349));
    assert!(copy.can_do_action_at(350));
    assert!(!copy.is_control_expired_at(7_042));
    assert!(copy.is_control_expired_at(7_043));
}

#[test]
fn cooldown_elapsed_values() {
    assert!(cooldown_elapsed(None, 0));
    assert!(!cooldown_elapsed(Some(0), 0));
    assert!(!cooldown_elapsed(Some(0), 299));
    assert!(cooldown_elapsed(Some(0), 300));
    assert!(!cooldown_elapsed(Some(500), 100));
    assert!(cooldown_elapsed(Some(u64::MAX - 300), u64::MAX));
}

#[test]
fn store_add_get_remove() {
    let mut store = SessionStore::new();
    assert!(store.get_user("ann").is_none());
    store.add_user(UserSession::new("ann".to_string(), 5));
    store.add_user(UserSession::new("ben".to_string(), 6));
    assert_eq!(store.get_user("ann").unwrap().id, "ann");
    assert_eq!(store.get_user("ben").unwrap().id, "ben");
    store.remove_user("ann");
    assert!(store.get_user("ann").is_none());
    assert_eq!(store.get_user("ben").unwrap().id, "ben");
    store.remove_user("ann");
    assert!(store.get_user("ann").is_none());
    assert_eq!(store.get_user("ben").unwrap().id, "ben");
}

#[test]
fn store_add_replaces_session_of_same_id() {
    let mut store = SessionStore::new();
    store.add_user(UserSession::new("ann".to_string(), 5));
    assert!(store.grant_control_at("ann", 10));
    assert!(store.get_user("ann").unwrap().has_control);
    store.add_user(UserSession::new("ann".to_string(), 5));
    assert!(!store.get_user("ann").unwrap().has_control);
    store.remove_user("ann");
    assert!(store.get_user("ann").is_none());
}

#[test]
fn store_updates_only_the_named_session() {
    let mut store = SessionStore::new();
    store.add_user(UserSession::new("ann".to_string(), 5));
    store.add_user(UserSession::new("ben".to_string(), 5));
    assert!(store.grant_control_at("ben", 100));
    assert!(!store.get_user("ann").unwrap().has_control);
    assert_eq!(store.get_user("ben").unwrap().control_granted_at, Some(100));
    assert!(store.record_action_at("ben", 200));
    assert!(!store.get_user("ben").unwrap().can_do_action_at(499));
    assert!(store.get_user("ann").unwrap().can_do_action_at(499));
    assert!(store.revoke_control("ben"));
    assert!(!store.get_user("ben").unwrap().has_control);
    assert!(!store.grant_control_at("nobody", 1));
    assert!(!store.revoke_control("nobody"));
    assert!(!store.record_action_at("nobody", 1));
    assert!(store.get_user("nobody").is_none());
}

#[test]
fn store_absent_session_counts_as_expired() {
    let mut store = SessionStore::new();
    assert!(store.is_control_expired_at("ann", 0));
    store.add_user(UserSession::new("ann".to_string(), 2));
    assert!(!store.is_control_expired_at("ann", 1_000_000));
    store.grant_control_at("ann", 1_000);
    assert!(!store.is_control_expired_at("ann", 3_000));
    assert!(store.is_control_expired_at("ann", 3_001));
    store.remove_user("ann");
    assert!(store.is_control_expired_at("ann", 1_000));
}

#[test]
fn session_on_its_own_clock() {
    let mut session = UserSession::new("ann".to_string(), 3_600);
    assert!(!session.is_control_expired());
    assert!(session.can_do_action());
    session.grant_control();
    assert!(session.has_control);
    assert!(session.control_granted_at.is_some());
    assert!(!session.is_control_expired());
    session.record_action();
    assert!(!session.can_do_action());
    session.revoke_control();
    assert!(!session.has_control);
    assert_eq!(session.control_granted_at, None);
    assert!(!session.is_control_expired());
}

#[test]
fn session_without_ttl_expires_once_time_has_passed() {
    let mut session = UserSession::new("ann".to_string(), 0);
    session.grant_control();
    let granted = session.control_granted_at.unwrap();
    assert!(!session.is_control_expired_at(granted));
    assert!(session.is_control_expired_at(granted + 1));
}
