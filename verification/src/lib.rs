//! Solar-phase display themes: the day's schedule, the override state machine,
//! the scheduler's per-cycle decisions and the retry policies for delivery.

pub mod delivery;
pub mod listener;
pub mod phase;
pub mod schedule;
pub mod scheduler;
pub mod solar;
