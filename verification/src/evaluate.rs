//! The deadman evaluation rule: the one decision this system makes.

use vstd::prelude::*;

use crate::config::Config;
use crate::outcome::{Notification, NotificationModel, Outcome, OutcomeModel};

verus! {

/// The moment from which the reminder is due: the last check-in plus
/// `days_reminder` days.
pub open spec fn reminder_deadline(c: Config, last_checkin: int) -> int {
    last_checkin + c.days_reminder * c.seconds_in_a_day
}

/// The moment from which the deadman alert is due: the last check-in plus
/// `days_deadman` days.
pub open spec fn deadman_deadline(c: Config, last_checkin: int) -> int {
    last_checkin + c.days_deadman * c.seconds_in_a_day
}

/// The decision rule, with the deadman check first and both thresholds
/// inclusive: at or past the deadman deadline the alert is due, else at or
/// past the reminder deadline the reminder is due, else nothing.
pub open spec fn spec_outcome(c: Config, now: int, last_checkin: int) -> OutcomeModel {
    if now >= deadman_deadline(c, last_checkin) {
        OutcomeModel::SendDeadmanAlert {
            recipients: c.family_members.deep_view(),
            subject: c.dead_man_activation_subject@,
            body: c.dead_man_activation_message@,
        }
    } else if now >= reminder_deadline(c, last_checkin) {
        OutcomeModel::SendReminder {
            recipient: c.to_email@,
            subject: c.reminder_subject@,
            body: c.reminder_message@,
        }
    } else {
        OutcomeModel::NoAction
    }
}

/// The notification requests an outcome gives rise to: none, one reminder,
/// or one alert per family member, all alerts carrying the same subject and
/// body.
pub open spec fn spec_requests(o: OutcomeModel) -> Seq<NotificationModel> {
    match o {
        OutcomeModel::NoAction => Seq::empty(),
        OutcomeModel::SendReminder { recipient, subject, body } => seq![
            NotificationModel { recipient, subject, body },
        ],
        OutcomeModel::SendDeadmanAlert { recipients, subject, body } => Seq::new(
            recipients.len(),
            |i: int| NotificationModel { recipient: recipients[i], subject, body },
        ),
    }
}

fn clone_strings(v: &Vec<String>) -> (r: Vec<String>)
    ensures
        r.deep_view() == v.deep_view(),
{
    let mut r: Vec<String> = Vec::new();
    let mut i: usize = 0;
    while i < v.len()
        invariant
            i <= v.len(),
            r@.len() == i,
            forall|k: int| 0 <= k < i ==> #[trigger] r@[k]@ == v@[k]@,
        decreases v.len() - i,
    {
        r.push(v[i].clone());
        i = i + 1;
    }
    proof {
        assert(r.deep_view() =~= v.deep_view());
    }
    r
}

/// Decides which outcome applies to the current time `now`, given the last
/// check-in time and the configured thresholds, and carries the recipient
/// set and message of that outcome. A pure function of its inputs.
pub fn evaluate(config: &Config, now: u64, last_checkin: u64) -> (r: Outcome)
    ensures
        r@ == spec_outcome(*config, now as int, last_checkin as int),
{
    proof {
        vstd::arithmetic::mul::lemma_mul_upper_bound(
            config.days_deadman as int,
            u64::MAX as int,
            config.seconds_in_a_day as int,
            u64::MAX as int,
        );
        vstd::arithmetic::mul::lemma_mul_upper_bound(
            config.days_reminder as int,
            u64::MAX as int,
            config.seconds_in_a_day as int,
            u64::MAX as int,
        );
    }
    let deadman_at: u128 = (last_checkin as u128) + (config.days_deadman as u128)
        * (config.seconds_in_a_day as u128);
    if (now as u128) >= deadman_at {
        Outcome::SendDeadmanAlert {
            recipients: clone_strings(&config.family_members),
            subject: config.dead_man_activation_subject.clone(),
            body: config.dead_man_activation_message.clone(),
        }
    } else {
        let reminder_at: u128 = (last_checkin as u128) + (config.days_reminder as u128)
            * (config.seconds_in_a_day as u128);
        if (now as u128) >= reminder_at {
            Outcome::SendReminder {
                recipient: config.to_email.clone(),
                subject: config.reminder_subject.clone(),
                body: config.reminder_message.clone(),
            }
        } else {
            Outcome::NoAction
        }
    }
}

/// Produces the notification requests of an outcome: the empty set for no
/// action, the single reminder, or one alert per family member.
pub fn notification_requests(outcome: &Outcome) -> (r: Vec<Notification>)
    ensures
        r.deep_view() == spec_requests(outcome@),
{
    match outcome {
        Outcome::NoAction => {
            let r: Vec<Notification> = Vec::new();
            proof {
                assert(r.deep_view() =~= spec_requests(outcome@));
            }
            r
        },
        Outcome::SendReminder { recipient, subject, body } => {
            let mut r: Vec<Notification> = Vec::new();
            r.push(
                Notification {
                    recipient: recipient.clone(),
                    subject: subject.clone(),
                    body: body.clone(),
                },
            );
            proof {
                assert(r.deep_view() =~= spec_requests(outcome@));
            }
            r
        },
        Outcome::SendDeadmanAlert { recipients, subject, body } => {
            let mut r: Vec<Notification> = Vec::new();
            let mut i: usize = 0;
            while i < recipients.len()
                invariant
                    i <= recipients.len(),
                    r@.len() == i,
                    forall|k: int|
                        0 <= k < i ==> #[trigger] r@[k]@ == (NotificationModel {
                            recipient: recipients@[k]@,
                            subject: subject@,
                            body: body@,
                        }),
                decreases recipients.len() - i,
            {
                r.push(
                    Notification {
                        recipient: recipients[i].clone(),
                        subject: subject.clone(),
                        body: body.clone(),
                    },
                );
                i = i + 1;
            }
            proof {
                assert(r.deep_view() =~= spec_requests(outcome@));
            }
            r
        },
    }
}

/// Evaluates and fans out in one step: the notification requests that the
/// current time, the last check-in and the configuration call for.
pub fn plan(config: &Config, now: u64, last_checkin: u64) -> (r: Vec<Notification>)
    ensures
        r.deep_view() == spec_requests(spec_outcome(*config, now as int, last_checkin as int)),
{
    let outcome: Outcome = evaluate(config, now, last_checkin);
    notification_requests(&outcome)
}

/// Before the reminder deadline nothing is due. The thresholds must be
/// ordered as configuration records are meant to be (`days_reminder` at
/// most `days_deadman`); with them inverted the deadman check, which comes
/// first, could already fire.
pub proof fn lemma_no_action_before_reminder(c: Config, now: int, last_checkin: int)
    requires
        c.days_reminder <= c.days_deadman,
        now < reminder_deadline(c, last_checkin),
    ensures
        spec_outcome(c, now, last_checkin) == OutcomeModel::NoAction,
{
    vstd::arithmetic::mul::lemma_mul_inequality(
        c.days_reminder as int,
        c.days_deadman as int,
        c.seconds_in_a_day as int,
    );
}

/// Between the reminder deadline (inclusive) and the deadman deadline
/// (exclusive) exactly the reminder is due, addressed to the configured
/// reminder recipient.
pub proof fn lemma_reminder_window(c: Config, now: int, last_checkin: int)
    requires
        reminder_deadline(c, last_checkin) <= now < deadman_deadline(c, last_checkin),
    ensures
        spec_outcome(c, now, last_checkin) == (OutcomeModel::SendReminder {
            recipient: c.to_email@,
            subject: c.reminder_subject@,
            body: c.reminder_message@,
        }),
{
}

/// At or past the deadman deadline the alert is due, whether or not the
/// reminder threshold has also passed: one notification per family member,
/// in the configured order, all carrying the alert subject and body.
pub proof fn lemma_deadman_alert(c: Config, now: int, last_checkin: int)
    requires
        now >= deadman_deadline(c, last_checkin),
    ensures
        spec_outcome(c, now, last_checkin) == (OutcomeModel::SendDeadmanAlert {
            recipients: c.family_members.deep_view(),
            subject: c.dead_man_activation_subject@,
            body: c.dead_man_activation_message@,
        }),
        spec_requests(spec_outcome(c, now, last_checkin)).len() == c.family_members@.len(),
        forall|i: int|
            0 <= i < c.family_members@.len() ==> spec_requests(
                spec_outcome(c, now, last_checkin),
            )[i] == (NotificationModel {
                recipient: c.family_members@[i]@,
                subject: c.dead_man_activation_subject@,
                body: c.dead_man_activation_message@,
            }),
{
}

/// The evaluator is a pure function of `(now, last_checkin, config)`: any
/// two outcomes that its contract admits for identical inputs are one and
/// the same value, so re-evaluating changes nothing.
pub proof fn lemma_evaluation_deterministic(
    c: Config,
    now: int,
    last_checkin: int,
    first: OutcomeModel,
    second: OutcomeModel,
)
    requires
        first == spec_outcome(c, now, last_checkin),
        second == spec_outcome(c, now, last_checkin),
    ensures
        first == second,
{
}

/// Both thresholds are inclusive: at the deadman deadline itself the alert
/// is already due, and at the reminder deadline itself, where that lies
/// before the deadman deadline, the reminder is already due.
pub proof fn lemma_deadline_inclusive(c: Config, last_checkin: int)
    ensures
        spec_outcome(c, deadman_deadline(c, last_checkin), last_checkin) is SendDeadmanAlert,
        reminder_deadline(c, last_checkin) < deadman_deadline(c, last_checkin)
            ==> spec_outcome(c, reminder_deadline(c, last_checkin), last_checkin) is SendReminder,
{
}

/// Fan-out over an empty family list is a no-op: past the deadman deadline
/// with no family members configured, zero notification requests arise.
pub proof fn lemma_empty_family_no_requests(c: Config, now: int, last_checkin: int)
    requires
        c.family_members@.len() == 0,
        now >= deadman_deadline(c, last_checkin),
    ensures
        spec_requests(spec_outcome(c, now, last_checkin)).len() == 0,
{
}

} // verus!
