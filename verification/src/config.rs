//! The configuration record: immutable after load, read by the evaluator.

use vstd::prelude::*;

verus! {

/// All parameters of one run. Loaded once, never mutated afterwards.
///
/// `counter_file`, `count_sent_mail` and `files_to_attach` are reserved
/// fields: they are part of the record's schema but no logic reads them.
pub struct Config {
    /// SMTP relay host name.
    pub smtp_host: String,
    /// SMTP relay port.
    pub smtp_port: u16,
    /// SMTP user name.
    pub smtp_user: String,
    /// SMTP password.
    pub smtp_password: String,
    /// Sender address of every mail.
    pub from_email: String,
    /// Recipient of the reminder mail.
    pub to_email: String,
    /// Path of the file holding the last check-in time.
    pub checkin_file: String,
    /// Reserved; unused by the current logic.
    pub counter_file: String,
    /// Days after the last check-in at which the reminder is due.
    pub days_reminder: u64,
    /// Days after the last check-in at which the alert is due.
    pub days_deadman: u64,
    /// Scale from days to seconds; ordinarily 86400, kept as data so that
    /// other scales can be injected.
    pub seconds_in_a_day: u64,
    /// Reserved; unused by the current logic.
    pub count_sent_mail: u32,
    /// Recipients of the deadman alert.
    pub family_members: Vec<String>,
    /// Reserved; unused by the current logic.
    pub files_to_attach: Vec<String>,
    /// Subject of the reminder mail.
    pub reminder_subject: String,
    /// Body of the reminder mail.
    pub reminder_message: String,
    /// Subject of the deadman alert.
    pub dead_man_activation_subject: String,
    /// Body of the deadman alert.
    pub dead_man_activation_message: String,
}

} // verus!
