use web_handle::{PanicSummary, Phase, StartDecision, StartError, WebHandle};

fn summary(message: &str, callstack: &str) -> PanicSummary {
    PanicSummary::new(String::from(message), String::from(callstack))
}

#[test]
fn fresh_handle_reports_no_panic() {
    let handle = WebHandle::new();
    assert_eq!(handle.phase(), Phase::Uninitialized);
    assert!(!handle.is_running());
    assert!(!handle.has_panicked());
    assert_eq!(handle.panic_message(), None);
    assert_eq!(handle.panic_callstack(), None);
}

#[test]
fn unstarted_handle_reports_no_panic_whatever_happens() {
    let mut handle = WebHandle::new();
    handle.destroy();
    assert!(!handle.record_panic(summary("boom", "frame 0")));
    assert_eq!(
        handle.start("canvas", None::<u8>),
        StartDecision::Fail(StartError::StartupFailed)
    );
    assert_eq!(handle.finish_start(Err(1u8)), Err(1u8));
    assert!(!handle.record_panic(summary("boom again", "frame 1")));
    assert_eq!(handle.phase(), Phase::Uninitialized);
    assert!(!handle.has_panicked());
    assert_eq!(handle.panic_message(), None);
    assert_eq!(handle.panic_callstack(), None);
}

#[test]
fn panic_in_the_runner_is_reported() {
    let mut handle = WebHandle::new();
    handle.start("canvas", Some("app"));
    assert!(!handle.has_panicked());
    assert!(handle.record_panic(summary(
        "panicked at src/app.rs:10:5: attempt to divide by zero",
        "Error\n    at imports.wbg.__wbg_new\n    at update",
    )));
    assert!(handle.has_panicked());
    let message = handle.panic_message().expect("a panic was recorded");
    let callstack = handle.panic_callstack().expect("a panic was recorded");
    assert!(!message.is_empty());
    assert!(!callstack.is_empty());
    assert_eq!(message, "panicked at src/app.rs:10:5: attempt to divide by zero");
    assert_eq!(callstack, "Error\n    at imports.wbg.__wbg_new\n    at update");
}

#[test]
fn message_and_callstack_are_not_swapped() {
    let mut handle = WebHandle::new();
    handle.start((), Some(()));
    handle.record_panic(summary("the message", "the callstack"));
    assert_eq!(handle.panic_message(), Some(String::from("the message")));
    assert_eq!(handle.panic_callstack(), Some(String::from("the callstack")));
}

#[test]
fn later_panic_replaces_earlier() {
    let mut handle = WebHandle::new();
    handle.start((), Some(()));
    assert!(handle.record_panic(summary("first", "stack one")));
    assert!(handle.record_panic(summary("second", "stack two")));
    assert_eq!(handle.panic_message(), Some(String::from("second")));
    assert_eq!(handle.panic_callstack(), Some(String::from("stack two")));
}

#[test]
fn panic_after_destroy_is_not_recorded() {
    let mut handle = WebHandle::new();
    handle.start((), Some(()));
    handle.destroy();
    assert!(!handle.record_panic(summary("late", "stack")));
    assert!(!handle.has_panicked());
    assert_eq!(handle.panic_message(), None);
}

#[test]
fn panic_after_destroy_keeps_the_earlier_one() {
    let mut handle = WebHandle::new();
    handle.start((), Some(()));
    assert!(handle.record_panic(summary("while running", "stack one")));
    handle.destroy();
    assert!(!handle.record_panic(summary("after teardown", "stack two")));
    assert_eq!(handle.panic_message(), Some(String::from("while running")));
    assert_eq!(handle.panic_callstack(), Some(String::from("stack one")));
}

#[test]
fn panic_during_startup_is_recorded() {
    let mut handle = WebHandle::new();
    handle.start((), Some(()));
    assert!(handle.record_panic(summary("creator panicked", "stack")));
    assert_eq!(handle.finish_start(Err("aborted")), Err("aborted"));
    assert!(handle.has_panicked());
    assert_eq!(handle.panic_message(), Some(String::from("creator panicked")));
}

#[test]
fn empty_texts_are_kept_as_given() {
    let mut handle = WebHandle::new();
    handle.start((), Some(()));
    assert!(handle.record_panic(summary("", "")));
    assert!(handle.has_panicked());
    assert_eq!(handle.panic_message(), Some(String::new()));
    assert_eq!(handle.panic_callstack(), Some(String::new()));
}

#[test]
fn summary_gives_back_its_parts() {
    let made = summary("msg", "stack");
    assert_eq!(made.message(), "msg");
    assert_eq!(made.callstack(), "stack");
}

#[test]
fn summary_clone_is_equal() {
    let made = summary("msg", "stack");
    let copy = made.clone();
    assert_eq!(copy, made);
    assert_eq!(copy.message(), "msg");
    assert_eq!(copy.callstack(), "stack");
}
