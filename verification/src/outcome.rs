//! The evaluator's result types and their mathematical models.

use vstd::prelude::*;

verus! {

/// One notification request: ephemeral, produced by the evaluator and
/// consumed by the sender. Never persisted.
#[derive(Debug, Clone, PartialEq, Eq)]
pub struct Notification {
    /// Recipient address of the mail.
    pub recipient: String,
    /// Subject line of the mail.
    pub subject: String,
    /// Body of the mail.
    pub body: String,
}

/// The mathematical value of a notification: its three strings.
pub struct NotificationModel {
    /// Recipient address of the mail.
    pub recipient: Seq<char>,
    /// Subject line of the mail.
    pub subject: Seq<char>,
    /// Body of the mail.
    pub body: Seq<char>,
}

impl View for Notification {
    type V = NotificationModel;

    open spec fn view(&self) -> NotificationModel {
        NotificationModel {
            recipient: self.recipient@,
            subject: self.subject@,
            body: self.body@,
        }
    }
}

impl DeepView for Notification {
    type V = NotificationModel;

    open spec fn deep_view(&self) -> NotificationModel {
        self.view()
    }
}

/// What one evaluation decides. The two sending outcomes are mutually
/// exclusive by construction: escalation supersedes the reminder.
#[derive(Debug, Clone, PartialEq, Eq)]
pub enum Outcome {
    /// The reminder deadline has not been reached.
    NoAction,
    /// The reminder deadline has passed, the deadman deadline has not.
    SendReminder {
        /// The configured reminder recipient.
        recipient: String,
        /// The configured reminder subject.
        subject: String,
        /// The configured reminder body.
        body: String,
    },
    /// The deadman deadline has passed: one mail per family member.
    SendDeadmanAlert {
        /// The configured family members.
        recipients: Vec<String>,
        /// The configured alert subject.
        subject: String,
        /// The configured alert body.
        body: String,
    },
}

/// The mathematical value of an outcome.
pub enum OutcomeModel {
    /// The reminder deadline has not been reached.
    NoAction,
    /// The reminder deadline has passed, the deadman deadline has not.
    SendReminder {
        /// The configured reminder recipient.
        recipient: Seq<char>,
        /// The configured reminder subject.
        subject: Seq<char>,
        /// The configured reminder body.
        body: Seq<char>,
    },
    /// The deadman deadline has passed.
    SendDeadmanAlert {
        /// The configured family members.
        recipients: Seq<Seq<char>>,
        /// The configured alert subject.
        subject: Seq<char>,
        /// The configured alert body.
        body: Seq<char>,
    },
}

impl View for Outcome {
    type V = OutcomeModel;

    open spec fn view(&self) -> OutcomeModel {
        match self {
            Outcome::NoAction => OutcomeModel::NoAction,
            Outcome::SendReminder { recipient, subject, body } => OutcomeModel::SendReminder {
                recipient: recipient@,
                subject: subject@,
                body: body@,
            },
            Outcome::SendDeadmanAlert { recipients, subject, body } => {
                OutcomeModel::SendDeadmanAlert {
                    recipients: recipients.deep_view(),
                    subject: subject@,
                    body: body@,
                }
            },
        }
    }
}

impl DeepView for Outcome {
    type V = OutcomeModel;

    open spec fn deep_view(&self) -> OutcomeModel {
        self.view()
    }
}

} // verus!
