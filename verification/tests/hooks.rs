use mundy::hook::SharedHook;

/// Two overlapping subscriptions share one native hook: the first
/// subscriber triggers the one native registration, the last removal the
/// one native unregistration — one native call each, however many
/// subscribers there were in between.
#[test]
fn overlapping_subscriptions_register_and_unregister_once() {
    let mut hook: SharedHook<&str> = SharedHook::new();
    let (first, register_first) = hook.subscribe("first").expect("no overflow");
    let (second, register_second) = hook.subscribe("second").expect("no overflow");
    assert!(register_first);
    assert!(!register_second);
    assert!(!hook.unsubscribe(first));
    assert!(hook.unsubscribe(second));
    assert_eq!(hook.registrations, 1);
    assert_eq!(hook.unregistrations, 1);
}

/// The same holds for any subscriber count, as long as the hook never goes
/// empty in between.
#[test]
fn many_overlapping_subscribers_still_one_native_pair() {
    let mut hook: SharedHook<usize> = SharedHook::new();
    let mut native_registrations = 0;
    let mut native_unregistrations = 0;
    let handles: Vec<_> = (0..10)
        .map(|i| {
            let (handle, register_now) = hook.subscribe(i).expect("no overflow");
            if register_now {
                native_registrations += 1;
            }
            handle
        })
        .collect();
    for handle in handles {
        if hook.unsubscribe(handle) {
            native_unregistrations += 1;
        }
    }
    assert_eq!(native_registrations, 1);
    assert_eq!(native_unregistrations, 1);
    assert_eq!(hook.registrations, 1);
    assert_eq!(hook.unregistrations, 1);
}

/// A second wave of subscribers after the hook went empty registers the
/// native hook anew: calls always come in pairs.
#[test]
fn a_new_wave_registers_again() {
    let mut hook: SharedHook<&str> = SharedHook::new();
    let (a, registered) = hook.subscribe("a").expect("no overflow");
    assert!(registered);
    assert!(hook.unsubscribe(a));
    let (b, registered_again) = hook.subscribe("b").expect("no overflow");
    assert!(registered_again);
    assert!(hook.unsubscribe(b));
    assert_eq!(hook.registrations, 2);
    assert_eq!(hook.unregistrations, 2);
}

/// The fan-out hands every registered callback out in subscription order;
/// the embedder's configuration-change entry point relies on it.
#[test]
fn configuration_change_fans_out_in_order() {
    let mut hook: SharedHook<&str> = SharedHook::new();
    let _a = hook.subscribe("a").expect("no overflow");
    let (b, _) = hook.subscribe("b").expect("no overflow");
    let _c = hook.subscribe("c").expect("no overflow");
    assert_eq!(vec![&"a", &"b", &"c"], mundy::on_configuration_changed(&hook));
    hook.unsubscribe(b);
    assert_eq!(vec![&"a", &"c"], mundy::on_configuration_changed(&hook));
}

/// A subscription handle from the hook is still a registry handle: the
/// default handle removes nothing.
#[test]
fn stale_and_default_handles_are_safe() {
    let mut hook: SharedHook<&str> = SharedHook::new();
    let (only, _) = hook.subscribe("only").expect("no overflow");
    assert!(!hook.unsubscribe(mundy::callback_utils::CallbackHandle::default()));
    assert!(hook.unsubscribe(only));
    // The handle is stale now; unsubscribing again does nothing.
    assert!(!hook.unsubscribe(only));
    assert_eq!(hook.registrations, 1);
    assert_eq!(hook.unregistrations, 1);
}
