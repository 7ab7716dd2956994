use da_spammer::retry::{backoff_ms, Action, Event, Phase, RetryPolicy, Submission};
use da_spammer::rpc_error::{
    is_already_imported, is_nonce_error, is_out_of_step, reads_already_imported,
    reads_out_of_step,
};
use da_spammer::sybil;

fn policy(max_retries: u32) -> RetryPolicy {
    RetryPolicy { max_retries, base_ms: 250 }
}

#[test]
fn pauses_double_up_to_a_cap() {
    assert_eq!(backoff_ms(250, 1), 250);
    assert_eq!(backoff_ms(250, 2), 500);
    assert_eq!(backoff_ms(250, 3), 1000);
    assert_eq!(backoff_ms(1, 17), 65536);
    assert_eq!(backoff_ms(1, 18), 65536);
    assert_eq!(backoff_ms(1, u32::MAX), 65536);
    assert_eq!(backoff_ms(0, 9), 0);
    assert_eq!(backoff_ms(u64::MAX, 1), u64::MAX);
    assert_eq!(backoff_ms(u64::MAX / 2, 3), u64::MAX);
}

#[test]
fn nonce_errors_are_recognised() {
    for message in [
        "Transaction is STALE",
        "nonce is in the future",
        "Invalid Transaction",
        "bad proof given",
        "Priority is too low: (1 vs 2)",
    ] {
        assert!(is_nonce_error(message), "{message}");
        assert!(is_out_of_step(message), "{message}");
        assert!(sybil::is_nonce_error(message), "{message}");
        assert!(!is_already_imported(message), "{message}");
    }
    for message in ["", "connection refused", "bad  proof", "stal"] {
        assert!(!is_nonce_error(message), "{message}");
        assert!(!sybil::is_nonce_error(message), "{message}");
        assert!(!is_already_imported(message), "{message}");
    }
}

#[test]
fn imported_transactions_are_recognised() {
    assert!(is_already_imported("Transaction Already Imported"));
    assert!(is_nonce_error("Transaction Already Imported"));
    assert!(!sybil::is_nonce_error("Transaction Already Imported"));
    assert!(!is_already_imported("already  imported"));
}

#[test]
fn messages_outside_ascii_are_read() {
    assert!(is_nonce_error("\u{c9}chec: STALE"));
    assert!(!is_nonce_error("\u{c9}chec"));
}

#[test]
fn an_accepted_blob_ends_the_submission() {
    let (mut s, action) = Submission::start(policy(3), 7);
    assert!(matches!(action, Action::Sign { nonce: 7 }));
    assert!(matches!(s.step(Event::Signed), Action::Submit));
    assert!(matches!(s.step(Event::Accepted), Action::Finish { err: None }));
    assert_eq!(s.attempts, 1);
    assert_eq!(s.nonce, 7);
    assert_eq!(s.phase, Phase::Done);
}

#[test]
fn an_imported_transaction_counts_as_success() {
    let (mut s, _) = Submission::start(policy(0), 7);
    s.step(Event::Signed);
    let action = s.step(Event::Rejected("Already Imported (stale)".into()));
    assert!(matches!(action, Action::Finish { err: None }));
}

#[test]
fn a_nonce_error_refreshes_the_nonce() {
    let (mut s, _) = Submission::start(policy(1), 7);
    s.step(Event::Signed);
    assert!(matches!(s.step(Event::Rejected("Transaction is stale".into())), Action::FetchNonce));
    assert!(matches!(s.step(Event::NonceFetched(12)), Action::Sleep { ms: 250 }));
    assert!(matches!(s.step(Event::Woke), Action::Sign { nonce: 12 }));
    assert_eq!(s.attempts, 2);
    s.step(Event::Signed);
    match s.step(Event::Rejected("Transaction is stale".into())) {
        Action::Finish { err: Some(message) } => assert_eq!(message, "Transaction is stale"),
        _ => panic!("no retry is left"),
    }
    assert_eq!(s.nonce, 12);
}

#[test]
fn an_unavailable_nonce_is_kept() {
    let (mut s, _) = Submission::start(policy(1), 7);
    s.step(Event::Signed);
    s.step(Event::Rejected("future".into()));
    assert!(matches!(s.step(Event::NonceUnavailable), Action::Sleep { ms: 250 }));
    assert!(matches!(s.step(Event::Woke), Action::Sign { nonce: 7 }));
}

#[test]
fn other_rejections_only_pause() {
    let (mut s, _) = Submission::start(policy(2), 7);
    s.step(Event::Signed);
    assert!(matches!(s.step(Event::Rejected("timeout".into())), Action::Sleep { ms: 250 }));
    s.step(Event::Woke);
    s.step(Event::Signed);
    assert!(matches!(s.step(Event::Rejected("timeout".into())), Action::Sleep { ms: 500 }));
}

#[test]
fn signing_is_retried_too() {
    let (mut s, _) = Submission::start(policy(1), 7);
    assert!(matches!(s.step(Event::SignFailed("no metadata".into())), Action::Sleep { ms: 250 }));
    assert!(matches!(s.step(Event::Woke), Action::Sign { nonce: 7 }));
    match s.step(Event::SignFailed("no metadata".into())) {
        Action::Finish { err: Some(message) } => assert_eq!(message, "sign error: no metadata"),
        _ => panic!("no retry is left"),
    }
    assert_eq!(s.attempts, 2);
}

#[test]
fn the_worst_submission_ends_in_time() {
    let max_retries = 5u32;
    let (mut s, mut action) = Submission::start(policy(max_retries), 0);
    let mut events = 0;
    loop {
        let event = match action {
            Action::Sign { .. } => Event::Signed,
            Action::Submit => Event::Rejected("stale".into()),
            Action::FetchNonce => Event::NonceUnavailable,
            Action::Sleep { .. } => Event::Woke,
            Action::Finish { err } => {
                assert_eq!(err, Some("stale".to_string()));
                break;
            }
        };
        action = s.step(event);
        events += 1;
    }
    assert_eq!(events, 4 * max_retries + 2);
    assert_eq!(s.attempts, max_retries + 1);
}

#[test]
fn lower_case_messages_are_read() {
    assert!(reads_out_of_step("\u{3c3}\u{3c2}: stale"));
    assert!(reads_out_of_step("invalid transaction"));
    assert!(!reads_out_of_step("STALE"));
    assert!(!reads_out_of_step("already imported"));
    assert!(reads_already_imported("\u{e9}chec: already imported"));
    assert!(!reads_already_imported("Already Imported"));
    assert!(!reads_already_imported("stale"));
}

#[test]
fn messages_equal_up_to_letter_case_are_read_alike() {
    for (a, b) in [
        ("Bad Proof", "bAD pROOF"),
        ("\u{c9}chec Already Imported", "\u{c9}CHEC already IMPORTED"),
        ("A\u{3a3} stale", "a\u{3a3} STALE"),
        ("\u{c9}chec", "\u{c9}CHEC"),
    ] {
        assert!(a.eq_ignore_ascii_case(b));
        assert_eq!(is_nonce_error(a), is_nonce_error(b));
        assert_eq!(is_out_of_step(a), is_out_of_step(b));
        assert_eq!(is_already_imported(a), is_already_imported(b));
    }
}

#[test]
fn added_text_does_not_hide_a_match() {
    assert!(is_already_imported("code 1013: Already Imported, hash 0x12"));
    assert!(is_nonce_error("code 1010: Invalid Transaction, inability to pay"));
    assert!(is_already_imported("\u{3a3}\u{3a3}Already Imported\u{3a3}"));
}

#[test]
fn messages_are_read_line_by_line() {
    let cases = [("bad", "proof"), ("Stale", "x"), ("x", "in the FUTURE"), ("", ""), ("sta", "le")];
    for (a, b) in cases {
        let both = format!("{a}\n{b}");
        assert_eq!(is_nonce_error(&both), is_nonce_error(a) || is_nonce_error(b), "{both}");
        assert_eq!(
            sybil::is_nonce_error(&both),
            sybil::is_nonce_error(a) || sybil::is_nonce_error(b),
            "{both}"
        );
    }
    assert!(!is_already_imported("already\nimported"));
}

#[test]
fn a_submission_pauses_once_less_than_it_tries() {
    let (mut s, mut action) = Submission::start(policy(4), 3);
    let mut pauses = Vec::new();
    let mut rejections = 0;
    loop {
        let event = match action {
            Action::Sign { .. } => Event::Signed,
            Action::Submit if rejections == 3 => Event::Accepted,
            Action::Submit => {
                rejections += 1;
                Event::Rejected("future".into())
            }
            Action::FetchNonce => Event::NonceFetched(10 + rejections),
            Action::Sleep { ms } => {
                pauses.push(ms);
                Event::Woke
            }
            Action::Finish { err } => {
                assert_eq!(err, None);
                break;
            }
        };
        action = s.step(event);
    }
    assert_eq!(pauses, [250, 500, 1000]);
    assert_eq!(s.attempts, 4);
    assert_eq!(s.nonce, 13);
    assert_eq!(s.phase, Phase::Done);
}
