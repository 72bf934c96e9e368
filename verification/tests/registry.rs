use turret_control::clock::saturate_millis;
use turret_control::clock::Clock;
use turret_control::notifier::Notifier;

#[test]
fn notifier_registers_and_forgets() {
    let mut notifier = Notifier::new();
    assert!(!notifier.is_registered("ann"));
    notifier.register("ann".to_string());
    notifier.register("ben".to_string());
    notifier.register("ann".to_string());
    assert!(notifier.is_registered("ann"));
    assert!(notifier.is_registered("ben"));
    notifier.unregister("ann");
    assert!(!notifier.is_registered("ann"));
    assert!(notifier.is_registered("ben"));
    notifier.unregister("ann");
    notifier.unregister("nobody");
    assert!(notifier.is_registered("ben"));
}

#[test]
fn clock_counts_up_from_its_start() {
    let clock = Clock::start();
    let first = clock.now_ms();
    let second = clock.now_ms();
    assert!(first <= second);
    assert!(second < 20_000);
    let copy = clock;
    assert!(copy.now_ms() >= second);
}

#[test]
fn milliseconds_are_held_at_the_largest_number() {
    assert_eq!(saturate_millis(0), 0);
    assert_eq!(saturate_millis(1_234), 1_234);
    assert_eq!(saturate_millis(u64::MAX as u128), u64::MAX);
    assert_eq!(saturate_millis(u64::MAX as u128 + 1), u64::MAX);
    assert_eq!(saturate_millis(u128::MAX), u64::MAX);
}
