use theme_sender::delivery::{
    next_delay, Delivery, DeliveryStatus, DeliveryStep, ThemePayload, MAX_ATTEMPTS,
    PUBLISH_DELAY_CAP,
};
use theme_sender::phase::{SolarPhase, ThemeType};

#[test]
fn delay_doubles_up_to_the_cap() {
    assert_eq!(next_delay(1, 30), 2);
    assert_eq!(next_delay(2, 30), 4);
    assert_eq!(next_delay(8, 30), 16);
    assert_eq!(next_delay(15, 30), 30);
    assert_eq!(next_delay(16, 30), 30);
    assert_eq!(next_delay(30, 30), 30);
    assert_eq!(next_delay(32, 60), 60);
    assert_eq!(next_delay(0, 30), 0);
    assert_eq!(next_delay(u64::MAX, 30), 30);
    assert_eq!(next_delay(u64::MAX, u64::MAX), u64::MAX);
    assert_eq!(next_delay(u64::MAX / 2, u64::MAX), u64::MAX - 1);
}

#[test]
fn first_success_ends_the_delivery() {
    let mut delivery = Delivery::new();
    assert!(!delivery.is_finished());
    assert_eq!(delivery.record(true), DeliveryStep::Done);
    assert!(delivery.is_finished());
    assert_eq!(delivery.attempts(), 1);
    assert_eq!(delivery.status(), DeliveryStatus::Delivered);
}

#[test]
fn fifth_attempt_may_still_succeed() {
    let mut delivery = Delivery::new();
    assert_eq!(delivery.record(false), DeliveryStep::Retry { wait: 1 });
    assert_eq!(delivery.record(false), DeliveryStep::Retry { wait: 2 });
    assert_eq!(delivery.record(false), DeliveryStep::Retry { wait: 4 });
    assert_eq!(delivery.record(false), DeliveryStep::Retry { wait: 8 });
    assert!(!delivery.is_finished());
    assert_eq!(delivery.record(true), DeliveryStep::Done);
    assert_eq!(delivery.status(), DeliveryStatus::Delivered);
    assert_eq!(delivery.attempts(), 5);
}

#[test]
fn five_failures_end_the_delivery_without_a_sixth_attempt() {
    let mut delivery = Delivery::new();
    let mut attempts: u32 = 0;
    let mut waits: Vec<u64> = Vec::new();
    let last = loop {
        attempts += 1;
        match delivery.record(false) {
            DeliveryStep::Retry { wait } => waits.push(wait),
            step => break step,
        }
    };
    assert_eq!(last, DeliveryStep::GiveUp);
    assert_eq!(attempts, MAX_ATTEMPTS);
    assert_eq!(waits, vec![1, 2, 4, 8]);
    assert!(waits.iter().all(|wait| *wait <= PUBLISH_DELAY_CAP));
    assert!(delivery.is_finished());
    assert_eq!(delivery.status(), DeliveryStatus::Failed);
    assert_eq!(delivery.attempts(), 5);

    let before = delivery;
    assert_eq!(delivery.record(true), DeliveryStep::GiveUp);
    assert_eq!(delivery.record(false), DeliveryStep::GiveUp);
    assert_eq!(delivery, before);
}

#[test]
fn delivered_stays_delivered() {
    let mut delivery = Delivery::new();
    delivery.record(false);
    delivery.record(true);
    let before = delivery;
    assert_eq!(delivery.record(false), DeliveryStep::Done);
    assert_eq!(delivery, before);
    assert_eq!(delivery.attempts(), 2);
}

#[test]
fn payload_holds_the_theme_string_and_the_instant() {
    let solar = ThemePayload::new(&ThemeType::Solar(SolarPhase::CivilDusk), 1_704_067_200, 5);
    assert_eq!(solar.theme, "light-soft");
    assert_eq!(solar.seconds, 1_704_067_200);
    assert_eq!(solar.nanoseconds, 5);
    let custom = ThemePayload::new(&ThemeType::Custom(String::from("neon")), -1, 999_999_999);
    assert_eq!(custom.theme, "neon");
    assert_eq!(custom.seconds, -1);
    assert_eq!(custom.nanoseconds, 999_999_999);
}
