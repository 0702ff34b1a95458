use deadman::{
    evaluate, notification_requests, parse_checkin, plan, validate_addresses, AddressError,
    Config, Notification, Outcome,
};

const DAY: u64 = 86400;

fn test_config() -> Config {
    Config {
        smtp_host: String::from("smtp.example.org"),
        smtp_port: 587,
        smtp_user: String::from("user"),
        smtp_password: String::from("SECRET-REDACTED"),
        from_email: String::from("watcher@example.org"),
        to_email: String::from("me@example.org"),
        checkin_file: String::from("checkin.txt"),
        counter_file: String::from("counter.txt"),
        days_reminder: 5,
        days_deadman: 10,
        seconds_in_a_day: DAY,
        count_sent_mail: 0,
        family_members: vec![
            String::from("kin-one@example.org"),
            String::from("kin-two@example.org"),
        ],
        files_to_attach: vec![],
        reminder_subject: String::from("Please check in"),
        reminder_message: String::from("It has been a while."),
        dead_man_activation_subject: String::from("Important notice"),
        dead_man_activation_message: String::from("No check-in was received."),
    }
}

#[test]
fn scenario_a_reminder_after_six_days() {
    let config = test_config();
    let outcome = evaluate(&config, DAY * 6, 0);
    assert_eq!(
        outcome,
        Outcome::SendReminder {
            recipient: String::from("me@example.org"),
            subject: String::from("Please check in"),
            body: String::from("It has been a while."),
        }
    );
}

#[test]
fn scenario_b_alert_after_eleven_days() {
    let config = test_config();
    let outcome = evaluate(&config, DAY * 11, 0);
    match &outcome {
        Outcome::SendDeadmanAlert {
            recipients,
            subject,
            body,
        } => {
            assert_eq!(recipients, &config.family_members);
            assert_eq!(subject, "Important notice");
            assert_eq!(body, "No check-in was received.");
        }
        other => panic!("expected an alert, got {:?}", other),
    }
    let requests = notification_requests(&outcome);
    assert_eq!(requests.len(), 2);
    assert_eq!(requests[0].recipient, "kin-one@example.org");
    assert_eq!(requests[1].recipient, "kin-two@example.org");
    for request in &requests {
        assert_eq!(request.subject, "Important notice");
        assert_eq!(request.body, "No check-in was received.");
        assert_ne!(request.subject, "Please check in");
    }
}

#[test]
fn scenario_c_missing_checkin_defaults_to_zero() {
    let config = test_config();
    let last_checkin = parse_checkin(b"");
    assert_eq!(last_checkin, 0);
    let outcome = evaluate(&config, DAY * 10, last_checkin);
    assert!(matches!(outcome, Outcome::SendDeadmanAlert { .. }));
}

#[test]
fn scenario_d_empty_family_means_no_requests() {
    let mut config = test_config();
    config.family_members = vec![];
    let requests = plan(&config, DAY * 100, 0);
    assert!(requests.is_empty());
}

#[test]
fn no_action_before_reminder_deadline() {
    let config = test_config();
    assert_eq!(evaluate(&config, 0, 0), Outcome::NoAction);
    assert_eq!(evaluate(&config, DAY * 5 - 1, 0), Outcome::NoAction);
    assert!(plan(&config, DAY * 4, 0).is_empty());
}

#[test]
fn deadlines_are_inclusive() {
    let config = test_config();
    assert!(matches!(
        evaluate(&config, DAY * 5, 0),
        Outcome::SendReminder { .. }
    ));
    assert!(matches!(
        evaluate(&config, DAY * 10, 0),
        Outcome::SendDeadmanAlert { .. }
    ));
    assert!(matches!(
        evaluate(&config, DAY * 10 - 1, 0),
        Outcome::SendReminder { .. }
    ));
}

#[test]
fn deadlines_shift_with_last_checkin() {
    let config = test_config();
    let last_checkin = DAY * 20;
    assert_eq!(evaluate(&config, DAY * 24, last_checkin), Outcome::NoAction);
    assert!(matches!(
        evaluate(&config, DAY * 25, last_checkin),
        Outcome::SendReminder { .. }
    ));
    assert!(matches!(
        evaluate(&config, DAY * 30, last_checkin),
        Outcome::SendDeadmanAlert { .. }
    ));
}

#[test]
fn evaluation_is_repeatable() {
    let config = test_config();
    let first = evaluate(&config, DAY * 11, 0);
    let second = evaluate(&config, DAY * 11, 0);
    assert_eq!(first, second);
    assert_eq!(
        notification_requests(&first),
        notification_requests(&second)
    );
}

#[test]
fn reminder_produces_one_request() {
    let config = test_config();
    let requests = plan(&config, DAY * 6, 0);
    assert_eq!(
        requests,
        vec![Notification {
            recipient: String::from("me@example.org"),
            subject: String::from("Please check in"),
            body: String::from("It has been a while."),
        }]
    );
}

#[test]
fn huge_thresholds_do_not_overflow() {
    let mut config = test_config();
    config.days_reminder = u64::MAX;
    config.days_deadman = u64::MAX;
    config.seconds_in_a_day = u64::MAX;
    assert_eq!(evaluate(&config, u64::MAX, u64::MAX), Outcome::NoAction);
}

#[test]
fn parse_plain_number() {
    assert_eq!(parse_checkin(b"12345"), 12345);
    assert_eq!(parse_checkin(b"0"), 0);
    assert_eq!(parse_checkin(b"007"), 7);
}

#[test]
fn parse_trims_whitespace() {
    assert_eq!(parse_checkin(b" 42\n"), 42);
    assert_eq!(parse_checkin(b"\t\r\n 1700000000 \r\n"), 1700000000);
}

#[test]
fn parse_accepts_leading_plus() {
    assert_eq!(parse_checkin(b"+7"), 7);
    assert_eq!(parse_checkin(b"+"), 0);
    assert_eq!(parse_checkin(b"++7"), 0);
}

#[test]
fn parse_rejects_non_numerals() {
    assert_eq!(parse_checkin(b"abc"), 0);
    assert_eq!(parse_checkin(b"12a"), 0);
    assert_eq!(parse_checkin(b"1 2"), 0);
    assert_eq!(parse_checkin(b"-1"), 0);
    assert_eq!(parse_checkin(b"   "), 0);
}

#[test]
fn parse_handles_u64_boundary() {
    assert_eq!(parse_checkin(b"18446744073709551615"), u64::MAX);
    assert_eq!(parse_checkin(b"18446744073709551616"), 0);
    assert_eq!(parse_checkin(b"99999999999999999999999999"), 0);
}

#[test]
fn parse_agrees_with_std_parsing() {
    let samples: [&[u8]; 6] = [b"123", b" 77 ", b"+0", b"x", b"", b"18446744073709551616"];
    for sample in samples {
        let text = std::str::from_utf8(sample).unwrap();
        let expected: u64 = text.trim().parse().unwrap_or(0);
        assert_eq!(parse_checkin(sample), expected);
    }
}

#[test]
fn valid_addresses_pass() {
    assert_eq!(
        validate_addresses("watcher@example.org", "me@example.org"),
        Ok(())
    );
    assert_eq!(
        validate_addresses("Watcher <watcher@example.org>", "me@example.org"),
        Ok(())
    );
}

#[test]
fn malformed_sender_is_reported_first() {
    assert_eq!(
        validate_addresses("not an address", "also not one"),
        Err(AddressError::Sender)
    );
    assert_eq!(
        validate_addresses("not an address", "me@example.org"),
        Err(AddressError::Sender)
    );
}

#[test]
fn malformed_recipient_is_reported() {
    assert_eq!(
        validate_addresses("watcher@example.org", "not an address"),
        Err(AddressError::Recipient)
    );
}
