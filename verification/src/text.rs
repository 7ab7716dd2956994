//! Text helpers: lower-casing, substring tests and decimal rendering.

use vstd::prelude::*;
use vstd::string::*;

verus! {

/// Every character of `s` is an ASCII character.
pub open spec fn is_ascii_text(s: Seq<char>) -> bool {
    forall|i: int| 0 <= i < s.len() ==> (#[trigger] s[i] as u32) < 128
}

/// The lower-case form of an ASCII character: `A` to `Z` map to `a` to `z`, the rest is kept.
pub open spec fn ascii_lower_char(c: char) -> char {
    if 'A' <= c && c <= 'Z' {
        ((c as u32) + 32) as char
    } else {
        c
    }
}

/// The lower-case form of an ASCII text, character by character.
pub open spec fn ascii_lower(s: Seq<char>) -> Seq<char> {
    s.map_values(|c: char| ascii_lower_char(c))
}

/// What `str::to_lowercase` makes of a text that has characters outside ASCII, and whose ASCII
/// letters are in lower case.
pub uninterp spec fn unicode_lowercase(s: Seq<char>) -> Seq<char>;

/// The lower-case form of a text: the ASCII letters in lower case, and the other characters, if
/// there are any, as Unicode has them.
pub open spec fn lowercase(s: Seq<char>) -> Seq<char> {
    if is_ascii_text(ascii_lower(s)) {
        ascii_lower(s)
    } else {
        unicode_lowercase(ascii_lower(s))
    }
}

/// `str::to_lowercase`: the ASCII letters `A` to `Z` are mapped to `a` to `z`, in addition to
/// what happens to the characters outside ASCII. So a text in ASCII is otherwise kept, and any
/// other text gives what it gives with its ASCII letters in lower case, which depends on the text
/// alone and is named `unicode_lowercase`. Nothing is said of how the lower case of a longer text
/// goes together from that of its parts: outside ASCII a letter can depend on its neighbours, as
/// the Greek sigma at the end of a word does.
pub assume_specification[ str::to_lowercase ](s: &str) -> (r: String)
    ensures
        r@ == (if is_ascii_text(ascii_lower(s@)) {
            ascii_lower(s@)
        } else {
            unicode_lowercase(ascii_lower(s@))
        }),
;

/// Lower-casing keeps an ASCII text in ASCII, and no other text becomes one by it.
pub proof fn ascii_lower_keeps_ascii(s: Seq<char>)
    ensures
        is_ascii_text(ascii_lower(s)) == is_ascii_text(s),
        is_ascii_text(s) ==> lowercase(s) == ascii_lower(s),
        ascii_lower(ascii_lower(s)) == ascii_lower(s),
{
    let lower = ascii_lower(s);
    assert(forall|i: int|
        0 <= i < s.len() ==> ((#[trigger] lower[i] as u32) < 128) == ((s[i] as u32) < 128));
    if is_ascii_text(lower) {
        assert forall|i: int| 0 <= i < s.len() implies (#[trigger] s[i] as u32) < 128 by {
            assert((lower[i] as u32) < 128);
        }
    }
    assert(ascii_lower(lower) =~= lower);
}

/// Texts that are equal up to the letter case of their ASCII letters have the same lower case.
pub proof fn lower_case_ignores_ascii_case(a: Seq<char>, b: Seq<char>)
    requires
        ascii_lower(a) == ascii_lower(b),
    ensures
        lowercase(a) == lowercase(b),
{
}

/// The lower case of an ASCII text goes together from that of its parts.
pub proof fn ascii_lower_case_of_parts(a: Seq<char>, b: Seq<char>)
    requires
        is_ascii_text(a),
        is_ascii_text(b),
    ensures
        is_ascii_text(a + b),
        lowercase(a + b) == lowercase(a) + lowercase(b),
{
    let whole = a + b;
    assert forall|i: int| 0 <= i < whole.len() implies (#[trigger] whole[i] as u32) < 128 by {
        if i < a.len() {
            assert((a[i] as u32) < 128);
        } else {
            assert((b[i - a.len()] as u32) < 128);
        }
    }
    ascii_lower_keeps_ascii(a);
    ascii_lower_keeps_ascii(b);
    ascii_lower_keeps_ascii(whole);
    assert(ascii_lower(whole) =~= ascii_lower(a) + ascii_lower(b));
}

/// `needle` stands in `hay` at position `at`.
pub open spec fn occurs_at(hay: Seq<char>, needle: Seq<char>, at: int) -> bool {
    &&& 0 <= at
    &&& at + needle.len() <= hay.len()
    &&& hay.subrange(at, at + needle.len()) =~= needle
}

/// `needle` is a contiguous part of `hay`.
pub open spec fn has_part(hay: Seq<char>, needle: Seq<char>) -> bool {
    exists|at: int| occurs_at(hay, needle, at)
}

/// Text added before and behind keeps what a text has as a part.
pub proof fn added_text_keeps_parts(
    before: Seq<char>,
    text: Seq<char>,
    behind: Seq<char>,
    needle: Seq<char>,
)
    requires
        has_part(text, needle),
    ensures
        has_part(before + text + behind, needle),
{
    let at = choose|at: int| occurs_at(text, needle, at);
    let whole = before + text + behind;
    let there = before.len() + at;
    assert(whole.subrange(there, there + needle.len()) =~= text.subrange(at, at + needle.len()));
    assert(occurs_at(whole, needle, there));
}

/// A part that does not hold `mark` is in two texts with `mark` between them exactly if it is in
/// one of the two.
pub proof fn parts_do_not_cross(a: Seq<char>, mark: char, b: Seq<char>, needle: Seq<char>)
    requires
        !needle.contains(mark),
    ensures
        has_part(a + seq![mark] + b, needle) == (has_part(a, needle) || has_part(b, needle)),
{
    let whole = a + seq![mark] + b;
    let n = needle.len() as int;
    if has_part(a, needle) {
        added_text_keeps_parts(seq![], a, seq![mark] + b, needle);
        assert(Seq::<char>::empty() + a + (seq![mark] + b) =~= whole);
    }
    if has_part(b, needle) {
        added_text_keeps_parts(a + seq![mark], b, seq![], needle);
        assert(a + seq![mark] + b + Seq::<char>::empty() =~= whole);
    }
    if has_part(whole, needle) {
        let at = choose|at: int| occurs_at(whole, needle, at);
        if at + n <= a.len() {
            assert(a.subrange(at, at + n) =~= whole.subrange(at, at + n));
            assert(occurs_at(a, needle, at));
        } else if at > a.len() {
            let there = at - a.len() - 1;
            assert(b.subrange(there, there + n) =~= whole.subrange(at, at + n));
            assert(occurs_at(b, needle, there));
        } else {
            assert(whole.subrange(at, at + n)[a.len() - at] == mark);
            assert(needle[a.len() - at] == mark);
        }
    }
}

/// `str::contains` with a `&str` pattern: true exactly if the pattern is a contiguous part of
/// the text.
#[verifier::external_body]
pub(crate) fn contains_text(hay: &str, needle: &str) -> (r: bool)
    ensures
        r == has_part(hay@, needle@),
{
    hay.contains(needle)
}

/// The two texts are equal.
pub fn text_eq(a: &str, b: &str) -> (r: bool)
    ensures
        r == (a@ == b@),
{
    a.to_owned() == b.to_owned()
}

/// The text `detail` behind `prefix`.
pub fn prefixed(prefix: &str, detail: &str) -> (text: String)
    ensures
        text@ == prefix@ + detail@,
{
    let mut text = prefix.to_owned();
    text.append(detail);
    text
}

/// The decimal digit with value `d`.
pub open spec fn digit_char(d: nat) -> char {
    ((48 + d) as u32) as char
}

/// The decimal representation of `n`, without leading zeros.
pub open spec fn decimal(n: nat) -> Seq<char>
    decreases n,
{
    if n < 10 {
        seq![digit_char(n)]
    } else {
        decimal(n / 10).push(digit_char(n % 10))
    }
}

fn digit_text(d: u64) -> (r: &'static str)
    requires
        d < 10,
    ensures
        r@ == seq![digit_char(d as nat)],
{
    proof {
        reveal_strlit("0");
        reveal_strlit("1");
        reveal_strlit("2");
        reveal_strlit("3");
        reveal_strlit("4");
        reveal_strlit("5");
        reveal_strlit("6");
        reveal_strlit("7");
        reveal_strlit("8");
        reveal_strlit("9");
    }
    let r: &'static str = if d == 0 {
        "0"
    } else if d == 1 {
        "1"
    } else if d == 2 {
        "2"
    } else if d == 3 {
        "3"
    } else if d == 4 {
        "4"
    } else if d == 5 {
        "5"
    } else if d == 6 {
        "6"
    } else if d == 7 {
        "7"
    } else if d == 8 {
        "8"
    } else {
        "9"
    };
    assert(r@ =~= seq![digit_char(d as nat)]);
    r
}

/// Appends the decimal representation of `n`.
pub fn append_decimal(out: &mut String, n: u64)
    ensures
        final(out)@ == old(out)@ + decimal(n as nat),
    decreases n,
{
    let ghost start = out@;
    if n >= 10 {
        append_decimal(out, n / 10);
    }
    out.append(digit_text(n % 10));
    assert(out@ =~= start + decimal(n as nat));
}

/// Different numbers have different decimal representations.
pub proof fn decimal_is_injective(a: nat, b: nat)
    requires
        decimal(a) == decimal(b),
    ensures
        a == b,
    decreases a,
{
    assert(decimal(a).last() == digit_char(a % 10));
    assert(decimal(b).last() == digit_char(b % 10));
    if a >= 10 && b >= 10 {
        assert(decimal(a).drop_last() =~= decimal(a / 10));
        assert(decimal(b).drop_last() =~= decimal(b / 10));
        decimal_is_injective(a / 10, b / 10);
    } else if a >= 10 {
        assert(decimal(a / 10).len() > 0);
    } else if b >= 10 {
        assert(decimal(b / 10).len() > 0);
    }
}

/// The number that a row of decimal digits stands for, the highest digit first.
pub open spec fn number(digits: Seq<char>) -> int
    decreases digits.len(),
{
    if digits.len() == 0 {
        0
    } else {
        10 * number(digits.drop_last()) + (digits.last() as u32 - 48)
    }
}

/// A number is rendered in decimal digits that read back as that number. No zero leads them, but
/// for the number zero, which is a single digit.
pub proof fn decimal_reads_back(n: nat)
    ensures
        number(decimal(n)) == n,
        decimal(n).len() > 0,
        forall|i: int|
            0 <= i < decimal(n).len() ==> 48 <= #[trigger] decimal(n)[i] as u32 <= 57,
        n == 0 ==> decimal(n).len() == 1,
        n > 0 ==> decimal(n)[0] as u32 != 48,
    decreases n,
{
    let digits = decimal(n);
    assert(digits.last() == digit_char(n % 10));
    assert(digits.last() as u32 == 48 + n % 10);
    if n >= 10 {
        decimal_reads_back(n / 10);
        assert(digits.drop_last() =~= decimal(n / 10));
        assert forall|i: int| 0 <= i < digits.len() implies 48 <= #[trigger] digits[i] as u32
            <= 57 by {
            if i < digits.len() - 1 {
                assert(digits[i] == decimal(n / 10)[i]);
            }
        }
    } else {
        assert(digits.drop_last() =~= Seq::<char>::empty());
        assert(number(Seq::<char>::empty()) == 0);
    }
}

/// In lower case an ASCII text keeps its length; each of the letters `A` to `Z` is replaced by
/// the one 32 places further on, and every other character is kept.
pub proof fn ascii_letters_are_lowered(s: Seq<char>)
    requires
        forall|i: int| 0 <= i < s.len() ==> (#[trigger] s[i] as u32) < 128,
    ensures
        lowercase(s).len() == s.len(),
        forall|i: int|
            0 <= i < s.len() ==> #[trigger] lowercase(s)[i] as u32 == (if 65 <= s[i] as u32
                <= 90 {
                s[i] as u32 + 32
            } else {
                s[i] as u32 as int
            }),
{
    ascii_lower_keeps_ascii(s);
}

/// A text has a part exactly if it is that part with some text before and some behind it.
pub proof fn parts_split_the_text(hay: Seq<char>, needle: Seq<char>)
    ensures
        has_part(hay, needle) <==> exists|before: Seq<char>, behind: Seq<char>|
            hay == #[trigger] (before + needle + behind),
{
    if has_part(hay, needle) {
        let at = choose|at: int| occurs_at(hay, needle, at);
        let before = hay.take(at);
        let behind = hay.skip(at + needle.len());
        assert(hay.subrange(at, at + needle.len()) =~= needle);
        assert(hay =~= before + needle + behind);
    }
    if exists|before: Seq<char>, behind: Seq<char>| hay == #[trigger] (before + needle + behind) {
        let (before, behind) = choose|before: Seq<char>, behind: Seq<char>|
            hay == #[trigger] (before + needle + behind);
        assert(occurs_at(hay, needle, before.len() as int));
    }
}

/// A prefixed text is the prefix and then the detail, and nothing else.
pub proof fn prefixed_texts_are_both_parts(prefix: &str, detail: &str, text: String)
    requires
        call_ensures(prefixed, (prefix, detail), text),
    ensures
        text@.len() == prefix@.len() + detail@.len(),
        forall|i: int| 0 <= i < prefix@.len() ==> #[trigger] text@[i] == prefix@[i],
        text@.skip(prefix@.len() as int) == detail@,
{
    assert(text@.skip(prefix@.len() as int) =~= detail@);
}

/// Texts compare equal exactly if they have the same length and the same characters.
pub proof fn texts_compare_by_their_characters(a: &str, b: &str, r: bool)
    requires
        call_ensures(text_eq, (a, b), r),
    ensures
        r <==> a@.len() == b@.len() && forall|i: int|
            0 <= i < a@.len() ==> #[trigger] a@[i] == b@[i],
{
    if a@.len() == b@.len() && forall|i: int| 0 <= i < a@.len() ==> #[trigger] a@[i] == b@[i] {
        assert(a@ =~= b@);
    }
}

/// Appending a number keeps the text that is there and adds digits that read back as the number.
pub proof fn appended_numbers_read_back()
    ensures
        forall|out: &mut String, n: u64| #[trigger]
            call_ensures(append_decimal, (out, n), ()) ==> {
                let added = final(out)@.skip(out@.len() as int);
                &&& final(out)@.take(out@.len() as int) == out@
                &&& added.len() > 0
                &&& number(added) == n
                &&& added[0] as u32 == 48 ==> added.len() == 1
            },
{
    assert forall|out: &mut String, n: u64| #[trigger]
        call_ensures(append_decimal, (out, n), ()) implies {
        let added = final(out)@.skip(out@.len() as int);
        &&& final(out)@.take(out@.len() as int) == out@
        &&& added.len() > 0
        &&& number(added) == n
        &&& added[0] as u32 == 48 ==> added.len() == 1
    } by {
        decimal_reads_back(n as nat);
        assert(final(out)@.take(out@.len() as int) =~= out@);
        assert(final(out)@.skip(out@.len() as int) =~= decimal(n as nat));
    }
}

} // verus!
