use future_bridge::emission::{emit_outcome, emit_value};
use future_bridge::notification::Notification;
use future_bridge::subscriber::Subscriber;

#[test]
fn new_subscriber_is_empty_and_open() {
    let sub = Subscriber::<u8, ()>::new();
    assert!(sub.received().is_empty());
    assert!(!sub.is_closed());
}

#[test]
fn nothing_is_kept_after_complete() {
    let mut sub = Subscriber::<u8, u8>::new();
    sub.next(1);
    sub.next(2);
    assert!(!sub.is_closed());
    sub.complete();
    assert!(sub.is_closed());
    sub.next(3);
    sub.error(4);
    sub.complete();
    assert_eq!(
        sub.into_received(),
        vec![Notification::Next(1), Notification::Next(2), Notification::Complete]
    );
}

#[test]
fn error_ends_the_stream() {
    let mut sub = Subscriber::<u8, &str>::new();
    sub.error("boom");
    assert!(sub.is_closed());
    sub.next(1);
    sub.complete();
    assert_eq!(*sub.received(), vec![Notification::Error("boom")]);
}

#[test]
fn emit_value_pushes_next_and_complete() {
    let mut sub = Subscriber::<u8, ()>::new();
    emit_value(9, &mut sub);
    assert_eq!(*sub.received(), vec![Notification::Next(9), Notification::Complete]);
    assert!(sub.is_closed());
}

#[test]
fn emit_outcome_success_and_failure() {
    let mut ok_sub = Subscriber::<u8, &str>::new();
    emit_outcome(Ok(1), &mut ok_sub);
    assert_eq!(*ok_sub.received(), vec![Notification::Next(1), Notification::Complete]);

    let mut err_sub = Subscriber::<u8, &str>::new();
    emit_outcome(Err("x"), &mut err_sub);
    assert_eq!(*err_sub.received(), vec![Notification::Error("x")]);
}

#[test]
fn emit_after_values_appends_once() {
    let mut sub = Subscriber::<u8, ()>::new();
    sub.next(7);
    emit_value(8, &mut sub);
    emit_value(9, &mut sub);
    assert_eq!(
        sub.into_received(),
        vec![Notification::Next(7), Notification::Next(8), Notification::Complete]
    );
}
