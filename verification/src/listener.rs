//! The override listener's decisions: which signal a message stands for, and
//! how long to wait before the transport is connected again.

use vstd::prelude::*;
use crate::delivery::{doubled_up_to, next_delay, FIRST_DELAY};
use crate::scheduler::{OverrideSignal, SignalView};

verus! {

/// The longest wait before the listener connects again, in seconds.
pub const RECONNECT_DELAY_CAP: u64 = 60;

/// The text that `String::from_utf8_lossy` reads from the given bytes.
pub uninterp spec fn utf8_lossy_text(bytes: Seq<u8>) -> Seq<char>;

/// Calls `String::from_utf8_lossy` and takes the text as a `String`. The
/// text is named, not described: the same bytes give the same text.
#[verifier::external_body]
fn decode_lossy(bytes: &[u8]) -> (text: String)
    ensures
        text@ == utf8_lossy_text(bytes@),
{
    String::from_utf8_lossy(bytes).into_owned()
}

/// The signal that a message stands for: a revert on the revert topic,
/// whatever it holds, and on any other topic its text as the theme to set.
pub open spec fn signal_of(topic: Seq<char>, revert_topic: Seq<char>, text: Seq<char>) -> SignalView {
    if topic == revert_topic {
        SignalView::Revert
    } else {
        SignalView::SetTheme(text)
    }
}

/// Turns a message whose payload is already text into a signal.
pub fn signal_from_text(topic: &str, revert_topic: &str, text: String) -> (signal: OverrideSignal)
    ensures
        signal@ == signal_of(topic@, revert_topic@, text@),
{
    if topic.to_owned() == revert_topic.to_owned() {
        OverrideSignal::Revert
    } else {
        OverrideSignal::SetTheme(text)
    }
}

/// Turns a message as the transport hands it over into a signal.
pub fn signal_from_message(topic: &str, revert_topic: &str, payload: &[u8]) -> (signal:
    OverrideSignal)
    ensures
        signal@ == signal_of(topic@, revert_topic@, utf8_lossy_text(payload@)),
{
    signal_from_text(topic, revert_topic, decode_lossy(payload))
}

/// The payload of a revert message. A listener does not read it.
pub open spec fn revert_payload() -> Seq<char> {
    "revert"@
}

/// The topic on which a signal is sent.
pub open spec fn topic_of(signal: SignalView, override_topic: Seq<char>, revert_topic: Seq<char>) -> Seq<
    char,
> {
    match signal {
        SignalView::SetTheme(_) => override_topic,
        SignalView::Revert => revert_topic,
    }
}

/// The text that is sent for a signal.
pub open spec fn payload_of(signal: SignalView) -> Seq<char> {
    match signal {
        SignalView::SetTheme(text) => text,
        SignalView::Revert => revert_payload(),
    }
}

/// The signal that a command asks for: a revert where it is asked for, else
/// the theme that was named, and none where neither was given.
pub fn command_signal(theme: Option<String>, revert: bool) -> (signal: Option<OverrideSignal>)
    ensures
        revert ==> signal == Some(OverrideSignal::Revert),
        !revert ==> (match theme {
            Some(text) => signal == Some(OverrideSignal::SetTheme(text)),
            None => signal is None,
        }),
{
    if revert {
        Some(OverrideSignal::Revert)
    } else {
        match theme {
            Some(text) => Some(OverrideSignal::SetTheme(text)),
            None => None,
        }
    }
}

/// The message that carries a signal to a listener: its topic, then its
/// payload.
pub fn message_for(signal: &OverrideSignal, override_topic: &str, revert_topic: &str) -> (message: (
    String,
    String,
))
    ensures
        message.0@ == topic_of(signal@, override_topic@, revert_topic@),
        message.1@ == payload_of(signal@),
{
    match signal {
        OverrideSignal::SetTheme(text) => (override_topic.to_owned(), text.clone()),
        OverrideSignal::Revert => (revert_topic.to_owned(), "revert".to_owned()),
    }
}

/// Where the two topics differ, a listener reads from the message of a
/// signal that same signal.
pub proof fn message_carries_signal(
    signal: SignalView,
    override_topic: Seq<char>,
    revert_topic: Seq<char>,
)
    requires
        override_topic != revert_topic,
    ensures
        signal_of(
            topic_of(signal, override_topic, revert_topic),
            revert_topic,
            payload_of(signal),
        ) == signal,
{
}

/// What happened to the listener's connection or to its queue.
#[derive(Clone, Copy, Debug, PartialEq, Eq, Structural)]
pub enum ListenerEvent {
    /// The client could not be made, or it could not connect or subscribe.
    SetupFailed,
    /// The client is connected and subscribed to both topics.
    Subscribed,
    /// The connection was lost while listening.
    ConnectionLost,
    /// The scheduler's end of the queue is gone.
    ReceiverGone,
}

/// What the listener does next.
#[derive(Clone, Copy, Debug, PartialEq, Eq, Structural)]
pub enum ListenerAction {
    /// Wait this many seconds, then connect and subscribe again.
    Reconnect { wait: u64 },
    /// Receive messages and forward their signals.
    Listen,
    /// Give up and report that the queue is closed.
    Stop,
}

/// The wait before the listener's next attempt to connect.
#[derive(Clone, Copy, Debug, PartialEq, Eq, Structural)]
pub struct ListenerBackoff {
    pub delay: u64,
}

impl ListenerBackoff {
    /// The wait stays between one second and the cap.
    pub open spec fn wf(self) -> bool {
        1 <= self.delay <= 60
    }

    /// The backoff after an event: a failure doubles the wait up to the cap,
    /// a subscription sets it back to one second.
    pub open spec fn after(self, event: ListenerEvent) -> ListenerBackoff {
        match event {
            ListenerEvent::SetupFailed | ListenerEvent::ConnectionLost => ListenerBackoff {
                delay: doubled_up_to(self.delay as int, 60) as u64,
            },
            ListenerEvent::Subscribed => ListenerBackoff { delay: 1 },
            ListenerEvent::ReceiverGone => self,
        }
    }

    /// What the listener does on an event.
    pub open spec fn action(self, event: ListenerEvent) -> ListenerAction {
        match event {
            ListenerEvent::SetupFailed | ListenerEvent::ConnectionLost => ListenerAction::Reconnect {
                wait: self.delay,
            },
            ListenerEvent::Subscribed => ListenerAction::Listen,
            ListenerEvent::ReceiverGone => ListenerAction::Stop,
        }
    }

    /// The backoff of a listener that has not failed yet.
    pub fn new() -> (backoff: ListenerBackoff)
        ensures
            backoff.delay == 1,
            backoff.wf(),
    {
        ListenerBackoff { delay: FIRST_DELAY }
    }

    /// Takes an event and says what to do next.
    pub fn on_event(&mut self, event: ListenerEvent) -> (action: ListenerAction)
        ensures
            *final(self) == old(self).after(event),
            action == old(self).action(event),
            old(self).wf() ==> final(self).wf(),
    {
        match event {
            ListenerEvent::SetupFailed | ListenerEvent::ConnectionLost => {
                let wait = self.delay;
                self.delay = next_delay(wait, RECONNECT_DELAY_CAP);
                ListenerAction::Reconnect { wait }
            },
            ListenerEvent::Subscribed => {
                self.delay = FIRST_DELAY;
                ListenerAction::Listen
            },
            ListenerEvent::ReceiverGone => ListenerAction::Stop,
        }
    }
}

/// The wait after the given number of failures in a row: 1, 2, 4, 8, 16, 32
/// and from then on 60 seconds.
pub open spec fn reconnect_backoff(failures: nat) -> int
    decreases failures,
{
    if failures == 0 {
        1
    } else {
        doubled_up_to(reconnect_backoff((failures - 1) as nat), 60)
    }
}

/// The backoff after the given events, in their order, from a fresh start.
pub open spec fn after_events(events: Seq<ListenerEvent>) -> ListenerBackoff
    decreases events.len(),
{
    if events.len() == 0 {
        ListenerBackoff { delay: 1 }
    } else {
        after_events(events.drop_last()).after(events.last())
    }
}

/// The event is one that calls for another attempt to connect.
pub open spec fn is_failure(event: ListenerEvent) -> bool {
    event == ListenerEvent::SetupFailed || event == ListenerEvent::ConnectionLost
}

/// The wait never leaves the range from one second to the cap, and after a
/// subscription and `failures` failures in a row it is the backoff of that
/// number.
pub proof fn reconnect_wait_follows_failures(events: Seq<ListenerEvent>, failures: nat)
    requires
        failures <= events.len(),
        forall|j: int| events.len() - failures <= j < events.len() ==> is_failure(events[j]),
        failures == events.len() || events[events.len() - failures - 1]
            == ListenerEvent::Subscribed,
    ensures
        after_events(events).wf(),
        after_events(events).delay == reconnect_backoff(failures),
        1 <= reconnect_backoff(failures) <= 60,
    decreases events.len(),
{
    if events.len() > 0 {
        let front = events.drop_last();
        if failures > 0 {
            reconnect_wait_follows_failures(front, (failures - 1) as nat);
        } else {
            assert(events.last() == ListenerEvent::Subscribed);
        }
    }
}

} // verus!
