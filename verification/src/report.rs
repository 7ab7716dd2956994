//! The lines that report what became of each submission.

use vstd::prelude::*;
use vstd::string::*;

use crate::stats::SubmitResult;
use crate::sybil::AccountResult;
use crate::text::{append_decimal, decimal, decimal_reads_back};

verus! {

/// The line for a submission of the single-account program; `elapsed` is its time, rendered.
pub open spec fn submission_text(result: SubmitResult, elapsed: Seq<char>) -> Seq<char> {
    let counts = decimal(result.index as nat) + " nonce="@ + decimal(result.nonce as nat)
        + " size="@ + decimal(result.blob_len as nat) + "B attempts="@ + decimal(
        result.attempts as nat,
    );
    match result.err {
        Some(message) => "  x idx="@ + counts + " err="@ + message@,
        None => "  ok idx="@ + counts + " elapsed="@ + elapsed,
    }
}

/// Renders the line for a submission of the single-account program.
pub fn submission_line(result: &SubmitResult, elapsed: &str) -> (line: String)
    ensures
        line@ == submission_text(*result, elapsed@),
{
    let mut line = match &result.err {
        Some(_) => "  x idx=".to_owned(),
        None => "  ok idx=".to_owned(),
    };
    append_decimal(&mut line, result.index as u64);
    line.append(" nonce=");
    append_decimal(&mut line, result.nonce as u64);
    line.append(" size=");
    append_decimal(&mut line, result.blob_len as u64);
    line.append("B attempts=");
    append_decimal(&mut line, result.attempts as u64);
    match &result.err {
        Some(message) => {
            line.append(" err=");
            line.append(message.as_str());
        },
        None => {
            line.append(" elapsed=");
            line.append(elapsed);
        },
    }
    assert(line@ =~= submission_text(*result, elapsed@));
    line
}

/// The line for a submission of the multi-account program; `elapsed` is its time, rendered.
pub open spec fn account_text(r: AccountResult, elapsed: Seq<char>) -> Seq<char> {
    let origin = decimal(r.result.index as nat) + " acct#"@ + decimal(r.account_idx as nat)
        + " nonce="@ + decimal(r.result.nonce as nat);
    let attempts = " attempts="@ + decimal(r.result.attempts as nat);
    match r.result.err {
        Some(message) => "  x tx="@ + origin + attempts + " err="@ + message@,
        None => "  ok tx="@ + origin + " size="@ + decimal(r.result.blob_len as nat) + "B"@
            + attempts + " elapsed="@ + elapsed,
    }
}

/// Renders the line for a submission of the multi-account program.
pub fn account_line(r: &AccountResult, elapsed: &str) -> (line: String)
    ensures
        line@ == account_text(*r, elapsed@),
{
    let mut line = match &r.result.err {
        Some(_) => "  x tx=".to_owned(),
        None => "  ok tx=".to_owned(),
    };
    append_decimal(&mut line, r.result.index as u64);
    line.append(" acct#");
    append_decimal(&mut line, r.account_idx as u64);
    line.append(" nonce=");
    append_decimal(&mut line, r.result.nonce as u64);
    match &r.result.err {
        Some(message) => {
            line.append(" attempts=");
            append_decimal(&mut line, r.result.attempts as u64);
            line.append(" err=");
            line.append(message.as_str());
        },
        None => {
            line.append(" size=");
            append_decimal(&mut line, r.result.blob_len as u64);
            line.append("B");
            line.append(" attempts=");
            append_decimal(&mut line, r.result.attempts as u64);
            line.append(" elapsed=");
            line.append(elapsed);
        },
    }
    assert(line@ =~= account_text(*r, elapsed@));
    line
}

/// The line for a submission of the single-account program shows whether it succeeded, then its
/// index, its nonce, the size of its blob and its attempts, each in decimal behind its label, and
/// at the end the error, or the time where there was none.
pub proof fn submission_lines_show_every_field(
    result: &SubmitResult,
    elapsed: &str,
    line: String,
)
    requires
        call_ensures(submission_line, (result, elapsed), line),
    ensures
        result.err matches Some(message) ==> line@ == "  x idx="@ + decimal(result.index as nat)
            + " nonce="@ + decimal(result.nonce as nat) + " size="@ + decimal(
            result.blob_len as nat,
        ) + "B attempts="@ + decimal(result.attempts as nat) + " err="@ + message@,
        result.err is None ==> line@ == "  ok idx="@ + decimal(result.index as nat) + " nonce="@
            + decimal(result.nonce as nat) + " size="@ + decimal(result.blob_len as nat)
            + "B attempts="@ + decimal(result.attempts as nat) + " elapsed="@ + elapsed@,
{
}

/// The line for a submission of the multi-account program shows whether it succeeded, then its
/// index, its account, its nonce and its attempts, each in decimal behind its label, and at the
/// end the error. Where there was none it also shows the size of the blob, and ends in the time.
pub proof fn account_lines_show_every_field(r: &AccountResult, elapsed: &str, line: String)
    requires
        call_ensures(account_line, (r, elapsed), line),
    ensures
        r.result.err matches Some(message) ==> line@ == "  x tx="@ + decimal(
            r.result.index as nat,
        ) + " acct#"@ + decimal(r.account_idx as nat) + " nonce="@ + decimal(
            r.result.nonce as nat,
        ) + " attempts="@ + decimal(r.result.attempts as nat) + " err="@ + message@,
        r.result.err is None ==> line@ == "  ok tx="@ + decimal(r.result.index as nat)
            + " acct#"@ + decimal(r.account_idx as nat) + " nonce="@ + decimal(
            r.result.nonce as nat,
        ) + " size="@ + decimal(r.result.blob_len as nat) + "B attempts="@ + decimal(
            r.result.attempts as nat,
        ) + " elapsed="@ + elapsed@,
{
    reveal_strlit("B");
    reveal_strlit(" attempts=");
    reveal_strlit("B attempts=");
}

/// The index in a line is the first number in it, and the label before it tells a success from a
/// failure: lines of different submissions of a run differ, whatever else they show.
pub proof fn lines_tell_submissions_apart(
    a: &SubmitResult,
    b: &SubmitResult,
    elapsed_a: Seq<char>,
    elapsed_b: Seq<char>,
)
    requires
        submission_text(*a, elapsed_a) == submission_text(*b, elapsed_b),
    ensures
        a.index == b.index,
        a.err is None <==> b.err is None,
{
    reveal_strlit("  x idx=");
    reveal_strlit("  ok idx=");
    reveal_strlit(" nonce=");
    let x = submission_text(*a, elapsed_a);
    let y = submission_text(*b, elapsed_b);
    assert(x[2] == (if a.err is None {
        'o'
    } else {
        'x'
    }));
    assert(y[2] == (if b.err is None {
        'o'
    } else {
        'x'
    }));
    let n: int = if a.err is None {
        9
    } else {
        8
    };
    let da = decimal(a.index as nat);
    let db = decimal(b.index as nat);
    decimal_reads_back(a.index as nat);
    decimal_reads_back(b.index as nat);
    assert(x.subrange(n, n + da.len()) =~= da);
    assert(y.subrange(n, n + db.len()) =~= db);
    assert(x[n + da.len()] == ' ');
    assert(y[n + db.len()] == ' ');
    if da.len() < db.len() {
        assert(y[n + da.len()] == db[da.len() as int]);
    } else if db.len() < da.len() {
        assert(x[n + db.len()] == da[db.len() as int]);
    }
    assert(da =~= db);
}

} // verus!
