//! Delivery of one theme over an unreliable transport: what is sent, how
//! often it is tried and how long to wait between the attempts.

use vstd::prelude::*;
use crate::phase::ThemeType;

verus! {

/// The number of attempts after which a delivery is given up.
pub const MAX_ATTEMPTS: u32 = 5;

/// The wait after the first failure, in seconds.
pub const FIRST_DELAY: u64 = 1;

/// The longest wait between two attempts to publish, in seconds.
pub const PUBLISH_DELAY_CAP: u64 = 30;

/// Twice the delay, but no more than the cap.
pub open spec fn doubled_up_to(delay: int, cap: int) -> int {
    if 2 * delay <= cap {
        2 * delay
    } else {
        cap
    }
}

/// The wait that follows a wait of `delay`.
pub fn next_delay(delay: u64, cap: u64) -> (next: u64)
    ensures
        next == doubled_up_to(delay as int, cap as int),
{
    if delay <= cap / 2 {
        delay * 2
    } else {
        cap
    }
}

/// The wait after the given number of failed attempts to publish: 1, 2, 4,
/// 8, 16 and from then on 30 seconds.
pub open spec fn publish_backoff(failures: nat) -> int
    decreases failures,
{
    if failures <= 1 {
        1
    } else {
        doubled_up_to(publish_backoff((failures - 1) as nat), 30)
    }
}

/// What goes out on the wire: the theme's identifier and the instant of the
/// publish, as seconds and nanoseconds since the epoch.
#[derive(Debug, PartialEq, Eq)]
pub struct ThemePayload {
    pub theme: String,
    pub seconds: i64,
    pub nanoseconds: u32,
}

impl ThemePayload {
    /// The payload for a theme that is published at the given instant.
    pub fn new(theme: &ThemeType, seconds: i64, nanoseconds: u32) -> (payload: ThemePayload)
        ensures
            payload.theme@ == theme@.theme_text(),
            payload.seconds == seconds,
            payload.nanoseconds == nanoseconds,
    {
        ThemePayload { theme: theme.to_theme_string(), seconds, nanoseconds }
    }
}

/// How a delivery stands.
#[derive(Clone, Copy, Debug, PartialEq, Eq, Structural)]
pub enum DeliveryStatus {
    /// Another attempt is due.
    Pending,
    /// An attempt succeeded.
    Delivered,
    /// Every attempt failed.
    Failed,
}

/// What the caller does after an attempt.
#[derive(Clone, Copy, Debug, PartialEq, Eq, Structural)]
pub enum DeliveryStep {
    /// Report success.
    Done,
    /// Wait this many seconds, then try again.
    Retry { wait: u64 },
    /// Report the error of the last attempt.
    GiveUp,
}

/// The course of one delivery: the attempts made so far and the wait after
/// the next failure.
#[derive(Clone, Copy, Debug, PartialEq, Eq)]
pub struct Delivery {
    attempts: u32,
    delay: u64,
    status: DeliveryStatus,
}

/// What a `Delivery` holds.
pub struct DeliveryView {
    pub attempts: nat,
    pub delay: nat,
    pub status: DeliveryStatus,
}

impl DeliveryView {
    /// A delivery before its first attempt.
    pub open spec fn start() -> DeliveryView {
        DeliveryView { attempts: 0, delay: 1, status: DeliveryStatus::Pending }
    }

    /// A delivery that attempts can lead to: it is pending for at most four
    /// failures, with the wait that their number calls for, and ends with
    /// the fifth attempt at the latest.
    pub open spec fn wf(self) -> bool {
        match self.status {
            DeliveryStatus::Pending => self.attempts < 5 && self.delay == publish_backoff(
                self.attempts + 1,
            ),
            DeliveryStatus::Delivered => 1 <= self.attempts <= 5,
            DeliveryStatus::Failed => self.attempts == 5,
        }
    }

    /// The delivery after one more attempt. A delivery that has ended stays
    /// as it is.
    pub open spec fn after(self, succeeded: bool) -> DeliveryView {
        if self.status != DeliveryStatus::Pending {
            self
        } else if succeeded {
            DeliveryView { attempts: self.attempts + 1, status: DeliveryStatus::Delivered, ..self }
        } else if self.attempts + 1 >= 5 {
            DeliveryView { attempts: self.attempts + 1, status: DeliveryStatus::Failed, ..self }
        } else {
            DeliveryView {
                attempts: self.attempts + 1,
                delay: doubled_up_to(self.delay as int, 30) as nat,
                status: DeliveryStatus::Pending,
            }
        }
    }

    /// What the caller is told after one more attempt.
    pub open spec fn step(self, succeeded: bool) -> DeliveryStep {
        match self.after(succeeded).status {
            DeliveryStatus::Delivered => DeliveryStep::Done,
            DeliveryStatus::Failed => DeliveryStep::GiveUp,
            DeliveryStatus::Pending => DeliveryStep::Retry { wait: self.delay as u64 },
        }
    }
}

impl View for Delivery {
    type V = DeliveryView;

    closed spec fn view(&self) -> DeliveryView {
        DeliveryView {
            attempts: self.attempts as nat,
            delay: self.delay as nat,
            status: self.status,
        }
    }
}

impl Delivery {
    #[verifier::type_invariant]
    spec fn reachable(self) -> bool {
        self@.wf()
    }

    /// A delivery before its first attempt.
    pub fn new() -> (delivery: Delivery)
        ensures
            delivery@ == DeliveryView::start(),
    {
        proof {
            reveal_with_fuel(publish_backoff, 2);
        }
        Delivery { attempts: 0, delay: FIRST_DELAY, status: DeliveryStatus::Pending }
    }

    /// The number of attempts made.
    pub fn attempts(&self) -> (attempts: u32)
        ensures
            attempts == self@.attempts,
            self@.wf(),
    {
        proof {
            use_type_invariant(self);
        }
        self.attempts
    }

    /// How the delivery stands.
    pub fn status(&self) -> (status: DeliveryStatus)
        ensures
            status == self@.status,
    {
        self.status
    }

    /// Whether no further attempt is due.
    pub fn is_finished(&self) -> (finished: bool)
        ensures
            finished == (self@.status != DeliveryStatus::Pending),
    {
        match self.status {
            DeliveryStatus::Pending => false,
            _ => true,
        }
    }

    /// Takes the outcome of an attempt and says how to go on: done after a
    /// success, a wait before each of the attempts two to five, and the end
    /// after the fifth failure.
    pub fn record(&mut self, succeeded: bool) -> (step: DeliveryStep)
        ensures
            final(self)@ == old(self)@.after(succeeded),
            step == old(self)@.step(succeeded),
    {
        proof {
            use_type_invariant(&*self);
            reveal_with_fuel(publish_backoff, 6);
        }
        match self.status {
            DeliveryStatus::Delivered => DeliveryStep::Done,
            DeliveryStatus::Failed => DeliveryStep::GiveUp,
            DeliveryStatus::Pending => {
                let attempts: u32 = self.attempts + 1;
                if succeeded {
                    *self = Delivery { attempts, delay: self.delay, status: DeliveryStatus::Delivered };
                    DeliveryStep::Done
                } else if attempts >= MAX_ATTEMPTS {
                    *self = Delivery { attempts, delay: self.delay, status: DeliveryStatus::Failed };
                    DeliveryStep::GiveUp
                } else {
                    let wait: u64 = self.delay;
                    *self = Delivery {
                        attempts,
                        delay: next_delay(wait, PUBLISH_DELAY_CAP),
                        status: DeliveryStatus::Pending,
                    };
                    DeliveryStep::Retry { wait }
                }
            },
        }
    }
}

/// The delivery after attempts with the given outcomes, in their order.
pub open spec fn after_attempts(outcomes: Seq<bool>) -> DeliveryView
    decreases outcomes.len(),
{
    if outcomes.len() == 0 {
        DeliveryView::start()
    } else {
        after_attempts(outcomes.drop_last()).after(outcomes.last())
    }
}

/// Whatever the outcomes, the delivery stays one that attempts can lead to:
/// it never counts more than five attempts.
pub proof fn attempts_stay_bounded(outcomes: Seq<bool>)
    ensures
        after_attempts(outcomes).wf(),
        after_attempts(outcomes).attempts <= 5,
    decreases outcomes.len(),
{
    reveal_with_fuel(publish_backoff, 6);
    if outcomes.len() > 0 {
        attempts_stay_bounded(outcomes.drop_last());
    }
}

/// After up to four failures and no success the delivery is pending, with
/// the wait that this number of failures calls for.
proof fn pending_after_failures(outcomes: Seq<bool>)
    requires
        outcomes.len() <= 4,
        forall|j: int| 0 <= j < outcomes.len() ==> !outcomes[j],
    ensures
        after_attempts(outcomes) == (DeliveryView {
            attempts: outcomes.len(),
            delay: publish_backoff(outcomes.len() + 1) as nat,
            status: DeliveryStatus::Pending,
        }),
    decreases outcomes.len(),
{
    reveal_with_fuel(publish_backoff, 6);
    if outcomes.len() > 0 {
        pending_after_failures(outcomes.drop_last());
    }
}

/// Attempts after the end of a delivery change nothing.
proof fn ended_delivery_stays(outcomes: Seq<bool>, n: int)
    requires
        0 <= n <= outcomes.len(),
        after_attempts(outcomes.take(n)).status != DeliveryStatus::Pending,
    ensures
        after_attempts(outcomes) == after_attempts(outcomes.take(n)),
    decreases outcomes.len() - n,
{
    if n == outcomes.len() {
        assert(outcomes.take(n) =~= outcomes);
    } else {
        assert(outcomes.drop_last().take(n) =~= outcomes.take(n));
        ended_delivery_stays(outcomes.drop_last(), n);
    }
}

/// A delivery succeeds with the first attempt that succeeds, if it is one
/// of the first five, and makes no attempt after it.
pub proof fn delivery_ends_with_first_success(outcomes: Seq<bool>, first: int)
    requires
        0 <= first < 5,
        first < outcomes.len(),
        outcomes[first],
        forall|j: int| 0 <= j < first ==> !outcomes[j],
    ensures
        after_attempts(outcomes).status == DeliveryStatus::Delivered,
        after_attempts(outcomes).attempts == first + 1,
{
    let upto = outcomes.take(first + 1);
    assert(upto.drop_last() =~= outcomes.take(first));
    pending_after_failures(outcomes.take(first));
    ended_delivery_stays(outcomes, first + 1);
}

/// A delivery whose first five attempts fail has failed, and makes no sixth
/// attempt whatever would come of it.
pub proof fn delivery_fails_after_five_failures(outcomes: Seq<bool>)
    requires
        outcomes.len() >= 5,
        forall|j: int| 0 <= j < 5 ==> !outcomes[j],
    ensures
        after_attempts(outcomes).status == DeliveryStatus::Failed,
        after_attempts(outcomes).attempts == 5,
{
    let upto = outcomes.take(5);
    assert(upto.drop_last() =~= outcomes.take(4));
    pending_after_failures(outcomes.take(4));
    ended_delivery_stays(outcomes, 5);
}

/// The waits between the five attempts are 1, 2, 4 and 8 seconds, and no
/// wait is longer than the cap.
pub proof fn publish_waits(failures: nat)
    ensures
        publish_backoff(1) == 1,
        publish_backoff(2) == 2,
        publish_backoff(3) == 4,
        publish_backoff(4) == 8,
        1 <= publish_backoff(failures) <= 30,
    decreases failures,
{
    reveal_with_fuel(publish_backoff, 5);
    if failures > 1 {
        publish_waits((failures - 1) as nat);
    }
}

} // verus!
