use theme_sender::listener::{
    command_signal, message_for, signal_from_message, signal_from_text, ListenerAction,
    ListenerBackoff, ListenerEvent,
    RECONNECT_DELAY_CAP,
};
use theme_sender::scheduler::OverrideSignal;

const OVERRIDE_TOPIC: &str = "neiam/sync/theme/override";
const REVERT_TOPIC: &str = "neiam/sync/theme/revert";

#[test]
fn message_on_the_revert_topic_is_a_revert() {
    assert_eq!(
        signal_from_message(REVERT_TOPIC, REVERT_TOPIC, b"revert"),
        OverrideSignal::Revert
    );
    assert_eq!(signal_from_message(REVERT_TOPIC, REVERT_TOPIC, b""), OverrideSignal::Revert);
    assert_eq!(
        signal_from_text(REVERT_TOPIC, REVERT_TOPIC, String::from("dark")),
        OverrideSignal::Revert
    );
}

#[test]
fn message_on_another_topic_sets_its_text() {
    assert_eq!(
        signal_from_message(OVERRIDE_TOPIC, REVERT_TOPIC, b"high-contrast"),
        OverrideSignal::SetTheme(String::from("high-contrast"))
    );
    assert_eq!(
        signal_from_message(OVERRIDE_TOPIC, REVERT_TOPIC, b""),
        OverrideSignal::SetTheme(String::new())
    );
    assert_eq!(
        signal_from_message("anything/else", REVERT_TOPIC, b" dark \n"),
        OverrideSignal::SetTheme(String::from(" dark \n"))
    );
    assert_eq!(
        signal_from_text(OVERRIDE_TOPIC, REVERT_TOPIC, String::from("dark")),
        OverrideSignal::SetTheme(String::from("dark"))
    );
}

#[test]
fn payload_is_read_as_utf8_with_replacements() {
    assert_eq!(
        signal_from_message(OVERRIDE_TOPIC, REVERT_TOPIC, &[0xe2, 0x98, 0x80]),
        OverrideSignal::SetTheme(String::from("\u{2600}"))
    );
    assert_eq!(
        signal_from_message(OVERRIDE_TOPIC, REVERT_TOPIC, &[b'a', 0xff, b'b']),
        OverrideSignal::SetTheme(String::from("a\u{fffd}b"))
    );
}

#[test]
fn failures_double_the_wait_up_to_the_cap() {
    let mut backoff = ListenerBackoff::new();
    let mut waits: Vec<u64> = Vec::new();
    for _ in 0..9 {
        match backoff.on_event(ListenerEvent::SetupFailed) {
            ListenerAction::Reconnect { wait } => waits.push(wait),
            other => panic!("unexpected action {:?}", other),
        }
    }
    assert_eq!(waits, vec![1, 2, 4, 8, 16, 32, 60, 60, 60]);
    assert_eq!(backoff.delay, RECONNECT_DELAY_CAP);
}

#[test]
fn subscription_resets_the_wait() {
    let mut backoff = ListenerBackoff::new();
    backoff.on_event(ListenerEvent::SetupFailed);
    backoff.on_event(ListenerEvent::SetupFailed);
    assert_eq!(backoff.delay, 4);
    assert_eq!(backoff.on_event(ListenerEvent::Subscribed), ListenerAction::Listen);
    assert_eq!(backoff.delay, 1);
    assert_eq!(
        backoff.on_event(ListenerEvent::ConnectionLost),
        ListenerAction::Reconnect { wait: 1 }
    );
    assert_eq!(backoff.delay, 2);
    assert_eq!(
        backoff.on_event(ListenerEvent::SetupFailed),
        ListenerAction::Reconnect { wait: 2 }
    );
}

#[test]
fn closed_queue_stops_the_listener() {
    let mut backoff = ListenerBackoff::new();
    backoff.on_event(ListenerEvent::ConnectionLost);
    assert_eq!(backoff.on_event(ListenerEvent::ReceiverGone), ListenerAction::Stop);
    assert_eq!(backoff.delay, 2);
}

#[test]
fn command_asks_for_one_signal() {
    assert_eq!(command_signal(None, true), Some(OverrideSignal::Revert));
    assert_eq!(
        command_signal(Some(String::from("dark")), true),
        Some(OverrideSignal::Revert)
    );
    assert_eq!(
        command_signal(Some(String::from("dark")), false),
        Some(OverrideSignal::SetTheme(String::from("dark")))
    );
    assert_eq!(command_signal(None, false), None);
}

#[test]
fn message_of_a_signal_is_read_back_as_that_signal() {
    let set = OverrideSignal::SetTheme(String::from("high-contrast"));
    let (topic, payload) = message_for(&set, OVERRIDE_TOPIC, REVERT_TOPIC);
    assert_eq!(topic, OVERRIDE_TOPIC);
    assert_eq!(payload, "high-contrast");
    assert_eq!(signal_from_message(&topic, REVERT_TOPIC, payload.as_bytes()), set);

    let (topic, payload) = message_for(&OverrideSignal::Revert, OVERRIDE_TOPIC, REVERT_TOPIC);
    assert_eq!(topic, REVERT_TOPIC);
    assert_eq!(payload, "revert");
    assert_eq!(
        signal_from_message(&topic, REVERT_TOPIC, payload.as_bytes()),
        OverrideSignal::Revert
    );
}
