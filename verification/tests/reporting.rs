use da_spammer::report::{account_line, submission_line};
use da_spammer::stats::SubmitResult;
use da_spammer::sybil::AccountResult;

fn result(err: Option<&str>) -> SubmitResult {
    SubmitResult {
        index: 12,
        nonce: 345,
        blob_len: 1048576,
        attempts: 2,
        elapsed_ns: 0,
        err: err.map(|e| e.to_string()),
    }
}

#[test]
fn submissions_are_reported_in_a_line() {
    assert_eq!(
        submission_line(&result(None), "1.50s"),
        "  ok idx=12 nonce=345 size=1048576B attempts=2 elapsed=1.50s"
    );
    assert_eq!(
        submission_line(&result(Some("timeout")), "1.50s"),
        "  x idx=12 nonce=345 size=1048576B attempts=2 err=timeout"
    );
}

#[test]
fn account_submissions_are_reported_in_a_line() {
    let r = AccountResult { account_idx: 7, result: result(None) };
    assert_eq!(
        account_line(&r, "1.50s"),
        "  ok tx=12 acct#7 nonce=345 size=1048576B attempts=2 elapsed=1.50s"
    );
    let r = AccountResult { account_idx: 7, result: result(Some("timeout")) };
    assert_eq!(account_line(&r, "1.50s"), "  x tx=12 acct#7 nonce=345 attempts=2 err=timeout");
}
