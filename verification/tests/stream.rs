use mundy::callback::{CallbackAction, Message, Subscription};
use mundy::delta::AccessibilityPreferences;
use mundy::stream::{PreferencesStream, StreamEvent, StreamState};
use mundy::{
    AccentColor, AvailablePreferences, ColorScheme, Contrast, Interest, Preference, Preferences,
    Srgba,
};

fn accent(red: u8, green: u8, blue: u8, alpha: u8) -> AccentColor {
    AccentColor(Some(Srgba {
        red,
        green,
        blue,
        alpha,
    }))
}

/// The first polled item is available as soon as the connection reports in,
/// without any native change event having fired.
#[test]
fn initial_value_is_emitted_first() {
    let mut machine = PreferencesStream::new(Interest::all());
    let emitted = machine.next_event(StreamEvent::Connected {
        initial: AvailablePreferences::default(),
        has_native: true,
    });
    assert_eq!(emitted, Some(Preferences::default()));
    assert_eq!(machine.state, StreamState::Live);
}

/// While the connection is outstanding nothing is emitted.
#[test]
fn nothing_is_emitted_before_the_connection_reports() {
    let mut machine = PreferencesStream::new(Interest::all());
    let emitted = machine.next_event(StreamEvent::Delta(Preference::ColorScheme(
        ColorScheme::Dark,
    )));
    assert_eq!(emitted, None);
    assert_eq!(machine.state, StreamState::Connecting);
}

/// An empty interest short-circuits: the degraded connection yields exactly
/// one default-valued snapshot, then the stream is closed for good.
#[test]
fn empty_interest_yields_one_default_item_then_ends() {
    let mut machine = PreferencesStream::new(Interest::default());
    assert!(!machine.wants_native());
    let emitted = machine.next_event(StreamEvent::Connected {
        initial: AvailablePreferences::default(),
        has_native: false,
    });
    assert_eq!(emitted, Some(Preferences::default()));
    assert!(machine.is_closed());
    let after = machine.next_event(StreamEvent::Delta(Preference::ColorScheme(
        ColorScheme::Dark,
    )));
    assert_eq!(after, None);
    assert!(machine.is_closed());
}

/// A subscription over an empty interest owns no background resources and
/// its callback is never handed anything: there is no consumer to hand it
/// messages, and cancelling is a no-op.
#[test]
fn empty_interest_subscription_owns_nothing() {
    let mut subscription = Subscription::new(Interest::default());
    assert!(!subscription.active);
    assert!(!subscription.cancel());
}

/// Cancellation sends the shutdown signal exactly once, and the consumer
/// loop stops on it.
#[test]
fn cancellation_is_sent_exactly_once() {
    let mut subscription = Subscription::new(Interest::all());
    assert!(subscription.active);
    assert!(subscription.cancel());
    assert!(!subscription.cancel());
    assert!(matches!(
        mundy::callback::subscription_step(Message::Shutdown),
        CallbackAction::Stop
    ));
}

/// The accent-color scenario: the initial native color is reported, a
/// change fires, then an identical change fires again. The consumer sees
/// the initial snapshot, the updated snapshot, and nothing for the
/// duplicate.
#[test]
fn accent_color_updates_and_duplicate_is_suppressed() {
    let interest = Interest::accent_color();
    let initial = AvailablePreferences {
        accent_color: accent(255, 0, 0, 255),
        ..AvailablePreferences::default()
    };
    let events = vec![
        StreamEvent::Connected {
            initial,
            has_native: true,
        },
        StreamEvent::Delta(Preference::AccentColor(accent(0, 255, 0, 255))),
        StreamEvent::Delta(Preference::AccentColor(accent(0, 255, 0, 255))),
    ];
    let emissions = mundy::stream::run_events(interest, &events);
    assert_eq!(emissions.len(), 2);
    assert_eq!(emissions[0].accent_color, accent(255, 0, 0, 255));
    assert_eq!(emissions[1].accent_color, accent(0, 255, 0, 255));
}

/// Two independent native sources fire in close succession: the stream
/// emits one full snapshot per delta, each reflecting everything seen so
/// far, in arrival order.
#[test]
fn two_sources_give_two_snapshots_in_arrival_order() {
    let interest = Interest::color_scheme().union(Interest::contrast());
    let events = vec![
        StreamEvent::Connected {
            initial: AvailablePreferences::default(),
            has_native: true,
        },
        StreamEvent::Delta(Preference::ColorScheme(ColorScheme::Dark)),
        StreamEvent::Delta(Preference::Contrast(Contrast::More)),
    ];
    let emissions = mundy::stream::run_events(interest, &events);
    assert_eq!(emissions.len(), 3);
    assert_eq!(emissions[1].color_scheme, ColorScheme::Dark);
    assert_eq!(emissions[1].contrast, Contrast::NoPreference);
    assert_eq!(emissions[2].color_scheme, ColorScheme::Dark);
    assert_eq!(emissions[2].contrast, Contrast::More);
}

/// Feeding the same delta twice in a row yields exactly one emission.
#[test]
fn duplicate_delta_yields_one_emission() {
    let mut machine = PreferencesStream::new(Interest::all());
    machine.next_event(StreamEvent::Connected {
        initial: AvailablePreferences::default(),
        has_native: true,
    });
    let first = machine.next_event(StreamEvent::Delta(Preference::ColorScheme(
        ColorScheme::Dark,
    )));
    let second = machine.next_event(StreamEvent::Delta(Preference::ColorScheme(
        ColorScheme::Dark,
    )));
    assert!(first.is_some());
    assert_eq!(second, None);
}

/// Platforms whose only notification is "something changed" re-read every
/// setting and push the whole snapshot through the same machine. A broad
/// notification whose re-read shows nothing new is suppressed; a real
/// change is emitted.
#[test]
fn whole_snapshot_deltas_flow_through_the_machine() {
    let interest = Interest::color_scheme().union(Interest::contrast());
    let mut readings = mundy::windows::WindowsReadings {
        foreground: Some(Srgba {
            red: 255,
            green: 255,
            blue: 255,
            alpha: 255,
        }),
        high_contrast: Some(false),
        accent: None,
        animations_enabled: None,
        advanced_effects_enabled: None,
        double_click_millis: None,
    };
    let initial = mundy::windows::read_preferences(interest, &readings);
    let unchanged = mundy::windows::read_preferences(interest, &readings);
    readings.high_contrast = Some(true);
    let changed = mundy::windows::read_preferences(interest, &readings);

    let events = vec![
        StreamEvent::Connected {
            initial,
            has_native: true,
        },
        // A broad notification fired, but nothing actually changed.
        StreamEvent::Delta(Preference::Snapshot(unchanged)),
        StreamEvent::Delta(Preference::Snapshot(changed)),
    ];
    let emissions = mundy::stream::run_events(interest, &events);
    assert_eq!(emissions.len(), 2);
    assert_eq!(emissions[0].color_scheme, ColorScheme::Dark);
    assert_eq!(emissions[0].contrast, Contrast::NoPreference);
    assert_eq!(emissions[1].contrast, Contrast::More);
}

/// Consecutive equal snapshots are collapsed by the dedup step, run as a
/// whole over a snapshot sequence.
#[test]
fn dedup_collapses_runs_of_equal_snapshots() {
    let dark = Preferences {
        color_scheme: ColorScheme::Dark,
        ..Preferences::default()
    };
    let light = Preferences {
        color_scheme: ColorScheme::Light,
        ..Preferences::default()
    };
    let items = vec![dark, dark, light, light, dark];
    let emitted = mundy::dedup::dedup_all(&items);
    assert_eq!(emitted, vec![dark, light, dark]);
}

/// Fold correctness: the accumulator folds deltas strictly in arrival
/// order, and reordering two deltas that overlap changes the outcome.
#[test]
fn fold_follows_arrival_order() {
    let seed = AvailablePreferences::default();
    let accessibility = Preference::Accessibility(AccessibilityPreferences {
        contrast: Contrast::NoPreference,
        reduced_motion: mundy::ReducedMotion::Reduce,
        reduced_transparency: mundy::ReducedTransparency::NoPreference,
    });
    let contrast = Preference::Contrast(Contrast::More);

    let one_order = mundy::delta::apply_all(seed, &vec![accessibility, contrast]);
    assert_eq!(one_order.contrast, Contrast::More);
    assert_eq!(one_order.reduced_motion, mundy::ReducedMotion::Reduce);

    let other_order = mundy::delta::apply_all(seed, &vec![contrast, accessibility]);
    assert_eq!(other_order.contrast, Contrast::NoPreference);
    assert_eq!(other_order.reduced_motion, mundy::ReducedMotion::Reduce);

    assert_ne!(one_order, other_order);
}

/// The one-shot blocking read: an empty interest returns the default
/// snapshot at once; with real interest the race's outcome decides, and a
/// timeout returns `None`.
#[test]
fn once_outcome_follows_the_race() {
    assert_eq!(
        Preferences::once_outcome(Interest::default(), None),
        Some(Preferences::default())
    );
    let read = AvailablePreferences {
        color_scheme: ColorScheme::Dark,
        ..AvailablePreferences::default()
    };
    let won = Preferences::once_outcome(Interest::all(), Some(read));
    assert_eq!(won.expect("the read won the race").color_scheme, ColorScheme::Dark);
    assert_eq!(Preferences::once_outcome(Interest::all(), None), None);
}

/// The timeout scenario: a native source that never responds times out,
/// and dropping the stream afterwards leaves it closed for good — the
/// driver tears every native registration down at that point.
#[test]
fn timed_out_stream_is_torn_down() {
    let timeout = mundy::Duration::from_millis(1);
    assert_eq!(timeout.as_millis(), 1);
    assert_eq!(Preferences::once_outcome(Interest::all(), None), None);

    let mut machine = PreferencesStream::new(Interest::all());
    let emitted = machine.next_event(StreamEvent::Dropped);
    assert_eq!(emitted, None);
    assert!(machine.is_closed());
    let after = machine.next_event(StreamEvent::Connected {
        initial: AvailablePreferences::default(),
        has_native: true,
    });
    assert_eq!(after, None);
    assert!(machine.is_closed());
}
