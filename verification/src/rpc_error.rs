//! Reading the messages with which a node rejects a submission.

use vstd::prelude::*;

use crate::text::{
    added_text_keeps_parts, ascii_lower, ascii_lower_case_of_parts, ascii_lower_keeps_ascii,
    contains_text, has_part, is_ascii_text, lower_case_ignores_ascii_case, lowercase,
    parts_do_not_cross, parts_split_the_text,
};

verus! {

/// A message in lower case says that the transaction is in the pool already.
pub open spec fn lower_says_imported(lower: Seq<char>) -> bool {
    has_part(lower, "already imported"@)
}

/// A message in lower case says that the transaction is out of step with the chain.
pub open spec fn lower_says_out_of_step(lower: Seq<char>) -> bool {
    ||| has_part(lower, "stale"@)
    ||| has_part(lower, "future"@)
    ||| has_part(lower, "invalid transaction"@)
    ||| has_part(lower, "bad proof"@)
    ||| has_part(lower, "priority is too low"@)
}

/// The message says that the transaction is in the pool already.
pub open spec fn says_already_imported(message: Seq<char>) -> bool {
    lower_says_imported(lowercase(message))
}

/// The message says that the transaction is out of step with the chain.
pub open spec fn says_out_of_step(message: Seq<char>) -> bool {
    lower_says_out_of_step(lowercase(message))
}

/// The message points at the nonce: the transaction is out of step, or imported already.
pub open spec fn says_nonce_error(message: Seq<char>) -> bool {
    says_out_of_step(message) || says_already_imported(message)
}

/// Whether a message in lower case says that the transaction is out of step with the chain.
pub fn reads_out_of_step(lower: &str) -> (r: bool)
    ensures
        r == lower_says_out_of_step(lower@),
{
    contains_text(lower, "stale") || contains_text(lower, "future") || contains_text(
        lower,
        "invalid transaction",
    ) || contains_text(lower, "bad proof") || contains_text(lower, "priority is too low")
}

/// Whether a message in lower case says that the transaction is in the pool already.
pub fn reads_already_imported(lower: &str) -> (r: bool)
    ensures
        r == lower_says_imported(lower@),
{
    contains_text(lower, "already imported")
}

/// Whether a rejection points at a wrong nonce, whatever the letter case of its message.
pub fn is_nonce_error(message: &str) -> (r: bool)
    ensures
        r == says_nonce_error(message@),
{
    let lower = message.to_lowercase();
    reads_out_of_step(lower.as_str()) || reads_already_imported(lower.as_str())
}

/// Whether a rejection says that the transaction is out of step with the chain, whatever the
/// letter case of its message.
pub fn is_out_of_step(message: &str) -> (r: bool)
    ensures
        r == says_out_of_step(message@),
{
    reads_out_of_step(message.to_lowercase().as_str())
}

/// Whether a rejection says that the transaction is in the pool already, whatever the letter
/// case of its message.
pub fn is_already_imported(message: &str) -> (r: bool)
    ensures
        r == says_already_imported(message@),
{
    reads_already_imported(message.to_lowercase().as_str())
}

/// A transaction that is imported already always counts as a nonce error.
pub proof fn imported_is_nonce_error(message: Seq<char>)
    requires
        says_already_imported(message),
    ensures
        says_nonce_error(message),
{
}

/// On a message that does not speak of an imported transaction, a nonce error is exactly a
/// transaction out of step.
pub proof fn nonce_error_is_out_of_step(message: Seq<char>)
    requires
        !says_already_imported(message),
    ensures
        says_nonce_error(message) == says_out_of_step(message),
{
}

/// Messages that are equal up to the letter case of their ASCII letters are read alike.
pub proof fn letter_case_is_ignored(a: Seq<char>, b: Seq<char>)
    requires
        ascii_lower(a) == ascii_lower(b),
    ensures
        says_already_imported(a) == says_already_imported(b),
        says_out_of_step(a) == says_out_of_step(b),
        says_nonce_error(a) == says_nonce_error(b),
{
    lower_case_ignores_ascii_case(a, b);
}

/// Text added before and behind a message in lower case keeps every match in it.
pub proof fn added_lower_text_keeps_matches(
    before: Seq<char>,
    lower: Seq<char>,
    behind: Seq<char>,
)
    ensures
        lower_says_imported(lower) ==> lower_says_imported(before + lower + behind),
        lower_says_out_of_step(lower) ==> lower_says_out_of_step(before + lower + behind),
{
    if has_part(lower, "already imported"@) {
        added_text_keeps_parts(before, lower, behind, "already imported"@);
    }
    if has_part(lower, "stale"@) {
        added_text_keeps_parts(before, lower, behind, "stale"@);
    }
    if has_part(lower, "future"@) {
        added_text_keeps_parts(before, lower, behind, "future"@);
    }
    if has_part(lower, "invalid transaction"@) {
        added_text_keeps_parts(before, lower, behind, "invalid transaction"@);
    }
    if has_part(lower, "bad proof"@) {
        added_text_keeps_parts(before, lower, behind, "bad proof"@);
    }
    if has_part(lower, "priority is too low"@) {
        added_text_keeps_parts(before, lower, behind, "priority is too low"@);
    }
}

/// A message in lower case that has several lines is read line by line: it matches exactly if
/// one of its lines does.
pub proof fn lower_lines_are_read_one_by_one(a: Seq<char>, b: Seq<char>)
    ensures
        lower_says_imported(a + "\n"@ + b) == (lower_says_imported(a) || lower_says_imported(b)),
        lower_says_out_of_step(a + "\n"@ + b) == (lower_says_out_of_step(a)
            || lower_says_out_of_step(b)),
{
    reveal_strlit("\n");
    reveal_strlit("already imported");
    reveal_strlit("stale");
    reveal_strlit("future");
    reveal_strlit("invalid transaction");
    reveal_strlit("bad proof");
    reveal_strlit("priority is too low");
    assert("\n"@ =~= seq!['\n']);
    parts_do_not_cross(a, '\n', b, "already imported"@);
    parts_do_not_cross(a, '\n', b, "stale"@);
    parts_do_not_cross(a, '\n', b, "future"@);
    parts_do_not_cross(a, '\n', b, "invalid transaction"@);
    parts_do_not_cross(a, '\n', b, "bad proof"@);
    parts_do_not_cross(a, '\n', b, "priority is too low"@);
}

/// Text added before and behind an ASCII message keeps every match in it.
pub proof fn added_text_keeps_matches(before: Seq<char>, message: Seq<char>, behind: Seq<char>)
    requires
        is_ascii_text(before),
        is_ascii_text(message),
        is_ascii_text(behind),
    ensures
        says_already_imported(message) ==> says_already_imported(before + message + behind),
        says_out_of_step(message) ==> says_out_of_step(before + message + behind),
        says_nonce_error(message) ==> says_nonce_error(before + message + behind),
{
    ascii_lower_case_of_parts(before, message);
    ascii_lower_case_of_parts(before + message, behind);
    added_lower_text_keeps_matches(lowercase(before), lowercase(message), lowercase(behind));
}

/// An ASCII message of several lines is read line by line: it matches exactly if one of its
/// lines does.
pub proof fn lines_are_read_one_by_one(a: Seq<char>, b: Seq<char>)
    requires
        is_ascii_text(a),
        is_ascii_text(b),
    ensures
        says_already_imported(a + "\n"@ + b) == (says_already_imported(a)
            || says_already_imported(b)),
        says_out_of_step(a + "\n"@ + b) == (says_out_of_step(a) || says_out_of_step(b)),
        says_nonce_error(a + "\n"@ + b) == (says_nonce_error(a) || says_nonce_error(b)),
{
    reveal_strlit("\n");
    ascii_lower_keeps_ascii("\n"@);
    assert(ascii_lower("\n"@) =~= "\n"@);
    ascii_lower_case_of_parts(a, "\n"@);
    ascii_lower_case_of_parts(a + "\n"@, b);
    lower_lines_are_read_one_by_one(lowercase(a), lowercase(b));
}

/// A message in lower case is read as already imported exactly if it has the words `already
/// imported` in it, next to each other; without them it never is.
pub proof fn lower_imported_is_exactly_its_words(lower: Seq<char>)
    ensures
        lower_says_imported(lower) <==> exists|before: Seq<char>, behind: Seq<char>|
            lower == #[trigger] (before + "already imported"@ + behind),
{
    parts_split_the_text(lower, "already imported"@);
}

/// A message in lower case is read as out of step exactly if it has one of five texts in it:
/// `stale`, `future`, `invalid transaction`, `bad proof` or `priority is too low`.
pub proof fn lower_out_of_step_is_exactly_its_words(lower: Seq<char>)
    ensures
        lower_says_out_of_step(lower) <==> {
            ||| exists|before: Seq<char>, behind: Seq<char>|
                lower == #[trigger] (before + "stale"@ + behind)
            ||| exists|before: Seq<char>, behind: Seq<char>|
                lower == #[trigger] (before + "future"@ + behind)
            ||| exists|before: Seq<char>, behind: Seq<char>|
                lower == #[trigger] (before + "invalid transaction"@ + behind)
            ||| exists|before: Seq<char>, behind: Seq<char>|
                lower == #[trigger] (before + "bad proof"@ + behind)
            ||| exists|before: Seq<char>, behind: Seq<char>|
                lower == #[trigger] (before + "priority is too low"@ + behind)
        },
{
    parts_split_the_text(lower, "stale"@);
    parts_split_the_text(lower, "future"@);
    parts_split_the_text(lower, "invalid transaction"@);
    parts_split_the_text(lower, "bad proof"@);
    parts_split_the_text(lower, "priority is too low"@);
}

/// A rejection counts as already imported exactly if the lower case of its message has the words
/// `already imported` in it; any other rejection is never taken for a success.
pub proof fn imported_is_exactly_its_words(message: Seq<char>)
    ensures
        says_already_imported(message) <==> exists|before: Seq<char>, behind: Seq<char>|
            lowercase(message) == #[trigger] (before + "already imported"@ + behind),
{
    lower_imported_is_exactly_its_words(lowercase(message));
}

/// A rejection points at the nonce exactly if the lower case of its message has one of six texts
/// in it: one of the five for a transaction out of step, or `already imported`.
pub proof fn nonce_error_is_exactly_its_words(message: Seq<char>)
    ensures
        says_out_of_step(message) <==> {
            ||| exists|before: Seq<char>, behind: Seq<char>|
                lowercase(message) == #[trigger] (before + "stale"@ + behind)
            ||| exists|before: Seq<char>, behind: Seq<char>|
                lowercase(message) == #[trigger] (before + "future"@ + behind)
            ||| exists|before: Seq<char>, behind: Seq<char>|
                lowercase(message) == #[trigger] (before + "invalid transaction"@ + behind)
            ||| exists|before: Seq<char>, behind: Seq<char>|
                lowercase(message) == #[trigger] (before + "bad proof"@ + behind)
            ||| exists|before: Seq<char>, behind: Seq<char>|
                lowercase(message) == #[trigger] (before + "priority is too low"@ + behind)
        },
        says_nonce_error(message) <==> {
            ||| says_out_of_step(message)
            ||| exists|before: Seq<char>, behind: Seq<char>|
                lowercase(message) == #[trigger] (before + "already imported"@ + behind)
        },
{
    lower_out_of_step_is_exactly_its_words(lowercase(message));
    lower_imported_is_exactly_its_words(lowercase(message));
}

/// The readings of a rejection go together: one with the words `already imported` in lower case
/// is always a nonce error too, and apart from those a nonce error is exactly a transaction out
/// of step.
pub proof fn readings_go_together(
    message: &str,
    imported: bool,
    out_of_step: bool,
    nonce_error: bool,
)
    requires
        call_ensures(is_already_imported, (message,), imported),
        call_ensures(is_out_of_step, (message,), out_of_step),
        call_ensures(is_nonce_error, (message,), nonce_error),
    ensures
        imported <==> exists|before: Seq<char>, behind: Seq<char>|
            lowercase(message@) == #[trigger] (before + "already imported"@ + behind),
        out_of_step <==> {
            ||| exists|before: Seq<char>, behind: Seq<char>|
                lowercase(message@) == #[trigger] (before + "stale"@ + behind)
            ||| exists|before: Seq<char>, behind: Seq<char>|
                lowercase(message@) == #[trigger] (before + "future"@ + behind)
            ||| exists|before: Seq<char>, behind: Seq<char>|
                lowercase(message@) == #[trigger] (before + "invalid transaction"@ + behind)
            ||| exists|before: Seq<char>, behind: Seq<char>|
                lowercase(message@) == #[trigger] (before + "bad proof"@ + behind)
            ||| exists|before: Seq<char>, behind: Seq<char>|
                lowercase(message@) == #[trigger] (before + "priority is too low"@ + behind)
        },
        nonce_error <==> imported || out_of_step,
{
    imported_is_exactly_its_words(message@);
    nonce_error_is_exactly_its_words(message@);
}

} // verus!
