use mundy::callback_utils::{CallbackHandle, Callbacks};

#[test]
fn adds_an_entry() {
    let mut callbacks = Callbacks::new();
    let _foo = callbacks.add("foo");
    assert_eq!(vec![&"foo"], callbacks.iter());
}

#[test]
fn adds_multiple_entries() {
    let mut callbacks = Callbacks::new();
    let _foo = callbacks.add("foo").expect("no overflow");
    let _bar = callbacks.add("bar").expect("no overflow");
    let _baz = callbacks.add("baz").expect("no overflow");
    assert_eq!(vec![&"foo", &"bar", &"baz"], callbacks.iter());
}

#[test]
fn removes_an_entry() {
    let mut callbacks = Callbacks::new();
    let _foo = callbacks.add("foo").expect("no overflow");
    let bar = callbacks.add("bar").expect("no overflow");
    let _baz = callbacks.add("baz").expect("no overflow");
    callbacks.remove(bar);
    assert_eq!(vec![&"foo", &"baz"], callbacks.iter());
}

#[test]
fn removes_all_entry() {
    let mut callbacks = Callbacks::new();
    let foo = callbacks.add("foo").expect("no overflow");
    let bar = callbacks.add("bar").expect("no overflow");
    let baz = callbacks.add("baz").expect("no overflow");
    callbacks.remove(bar);
    callbacks.remove(baz);
    callbacks.remove(foo);
    assert_eq!(0, callbacks.iter().len());
}

#[test]
fn default_handle_does_not_remove_first_entry() {
    let mut callbacks = Callbacks::new();
    let _foo = callbacks.add("foo").expect("no overflow");
    callbacks.remove(CallbackHandle::default());
    assert_eq!(vec![&"foo"], callbacks.iter());
}

#[test]
fn removing_every_other_entry_keeps_the_rest() {
    let mut callbacks = Callbacks::new();
    let handles: Vec<CallbackHandle> = (0..5)
        .map(|i| callbacks.add(i).expect("no overflow"))
        .collect();
    // Remove the entries at odd positions; ceil(5 / 2) = 3 survive.
    callbacks.remove(handles[1]);
    callbacks.remove(handles[3]);
    assert_eq!(vec![&0, &2, &4], callbacks.iter());
    assert_eq!(3, callbacks.len());
}

#[test]
fn handles_are_never_reused() {
    let mut callbacks = Callbacks::new();
    let first = callbacks.add("first").expect("no overflow");
    callbacks.remove(first);
    let second = callbacks.add("second").expect("no overflow");
    assert_ne!(first.0, second.0);
    // Removing the stale first handle again must not touch the new entry.
    callbacks.remove(first);
    assert_eq!(vec![&"second"], callbacks.iter());
}

#[test]
fn add_fails_on_handle_exhaustion() {
    let mut callbacks = Callbacks {
        callbacks: Vec::new(),
        next_handle: usize::MAX,
    };
    assert!(callbacks.add("too late").is_err());
    assert!(callbacks.is_empty());
}
