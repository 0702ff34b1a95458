//! A deadman-switch notifier library.
//!
//! The library decides, from a configuration record, the time of the user's
//! last check-in and the current time, whether nothing is due, a reminder is
//! due to the user, or an alert is due to the configured family members, and
//! produces the exact set of notification requests for that decision.
//! Reading the configuration and check-in files, the clock, and the SMTP
//! transport live outside the library; the decision rule, the check-in
//! parsing and the address validation are verified here.

pub mod address;
pub mod checkin;
pub mod config;
pub mod evaluate;
pub mod outcome;

pub use address::{validate_addresses, AddressError};
pub use checkin::parse_checkin;
pub use config::Config;
pub use evaluate::{evaluate, notification_requests, plan};
pub use outcome::{Notification, Outcome};
