//! Signed 32-bit integers as decimal text: writing, reading, and the proof
//! that reading what was written gives the number back.

use vstd::prelude::*;

verus! {

/// The magnitude of the smallest 32-bit integer, which is the largest
/// magnitude that a 32-bit integer can have.
pub const MAX_MAGNITUDE: u64 = 2147483648;

/// Whether `c` is one of the ten ASCII digits.
pub open spec fn is_digit(c: char) -> bool {
    '0' <= c && c <= '9'
}

/// The number a digit stands for; zero for any other character.
pub open spec fn digit_value(c: char) -> nat {
    if is_digit(c) {
        (c as u32 - '0' as u32) as nat
    } else {
        0
    }
}

/// The digit that stands for `d`, for `d` below ten.
pub open spec fn digit_char(d: nat) -> char {
    if d == 0 {
        '0'
    } else if d == 1 {
        '1'
    } else if d == 2 {
        '2'
    } else if d == 3 {
        '3'
    } else if d == 4 {
        '4'
    } else if d == 5 {
        '5'
    } else if d == 6 {
        '6'
    } else if d == 7 {
        '7'
    } else if d == 8 {
        '8'
    } else {
        '9'
    }
}

/// Whether every character of `s` is a digit.
pub open spec fn all_digits(s: Seq<char>) -> bool {
    forall|i: int| 0 <= i < s.len() ==> is_digit(#[trigger] s[i])
}

/// The number that a run of digits denotes, most significant digit first.
pub open spec fn digits_value(s: Seq<char>) -> nat
    decreases s.len(),
{
    if s.len() == 0 {
        0
    } else {
        digits_value(s.drop_last()) * 10 + digit_value(s.last())
    }
}

/// The digits of `n` without leading zeros; `"0"` for zero.
pub open spec fn decimal_digits(n: nat) -> Seq<char>
    decreases n,
{
    if n < 10 {
        seq![digit_char(n)]
    } else {
        decimal_digits(n / 10).push(digit_char(n % 10))
    }
}

/// The canonical text of an integer: a minus sign for a negative number,
/// then the digits of its magnitude.
pub open spec fn decimal_text(v: int) -> Seq<char> {
    if v < 0 {
        seq!['-'] + decimal_digits((-v) as nat)
    } else {
        decimal_digits(v as nat)
    }
}

/// Whether `s` starts with a plus or a minus sign.
pub open spec fn has_sign(s: Seq<char>) -> bool {
    s.len() > 0 && (s[0] == '-' || s[0] == '+')
}

/// What is left of `s` once a leading sign is taken off.
pub open spec fn unsigned_part(s: Seq<char>) -> Seq<char> {
    if has_sign(s) {
        s.subrange(1, s.len() as int)
    } else {
        s
    }
}

/// The integer that `s` denotes: an optional sign, then one or more digits.
/// `None` where `s` has another shape.
pub open spec fn integer_value(s: Seq<char>) -> Option<int> {
    let body = unsigned_part(s);
    if body.len() == 0 || !all_digits(body) {
        None
    } else if s[0] == '-' {
        Some(-(digits_value(body) as int))
    } else {
        Some(digits_value(body) as int)
    }
}

/// The 32-bit integer that `s` denotes; `None` where `s` is no integer or
/// the integer does not fit.
pub open spec fn integer_of_text(s: Seq<char>) -> Option<i32> {
    match integer_value(s) {
        Some(v) => if i32::MIN <= v <= i32::MAX {
            Some(v as i32)
        } else {
            None
        },
        None => None,
    }
}

/// A run of digits denotes at least what any of its prefixes denotes.
pub proof fn lemma_digits_value_grows(s: Seq<char>, k: int)
    requires
        0 <= k <= s.len(),
    ensures
        digits_value(s.take(k)) <= digits_value(s),
    decreases s.len(),
{
    if k == s.len() {
        assert(s.take(k) =~= s);
    } else {
        assert(s.drop_last().take(k) =~= s.take(k));
        lemma_digits_value_grows(s.drop_last(), k);
    }
}

/// The digits written for `n` are digits, at least one of them, and denote `n`.
pub proof fn lemma_decimal_digits_value(n: nat)
    ensures
        decimal_digits(n).len() > 0,
        all_digits(decimal_digits(n)),
        digits_value(decimal_digits(n)) == n,
    decreases n,
{
    if n < 10 {
        let s = decimal_digits(n);
        assert(s.drop_last() =~= Seq::<char>::empty());
        assert(digits_value(s.drop_last()) == 0);
        assert(digit_value(digit_char(n)) == n);
    } else {
        lemma_decimal_digits_value(n / 10);
        let head = decimal_digits(n / 10);
        let s = head.push(digit_char(n % 10));
        assert(s.drop_last() =~= head);
        assert(s.last() == digit_char(n % 10));
        assert(digit_value(digit_char(n % 10)) == n % 10);
        assert forall|i: int| 0 <= i < s.len() implies is_digit(#[trigger] s[i]) by {
            if i < head.len() {
                assert(s[i] == head[i]);
            }
        }
    }
}

/// Reading the canonical text of a 32-bit integer gives the integer back.
pub proof fn lemma_integer_round_trip(v: i32)
    ensures
        integer_of_text(decimal_text(v as int)) == Some(v),
{
    let s = decimal_text(v as int);
    if v < 0 {
        let digits = decimal_digits((-v) as nat);
        lemma_decimal_digits_value((-v) as nat);
        assert(s[0] == '-');
        assert(unsigned_part(s) =~= digits);
    } else {
        lemma_decimal_digits_value(v as nat);
        assert(is_digit(s[0]));
        assert(unsigned_part(s) =~= s);
    }
}

/// The one-character string of the digit that stands for `d`.
fn digit_text(d: u64) -> (text: &'static str)
    requires
        d < 10,
    ensures
        text@ == seq![digit_char(d as nat)],
{
    proof {
        reveal_strlit("0");
        reveal_strlit("1");
        reveal_strlit("2");
        reveal_strlit("3");
        reveal_strlit("4");
        reveal_strlit("5");
        reveal_strlit("6");
        reveal_strlit("7");
        reveal_strlit("8");
        reveal_strlit("9");
    }
    let text = if d == 0 {
        "0"
    } else if d == 1 {
        "1"
    } else if d == 2 {
        "2"
    } else if d == 3 {
        "3"
    } else if d == 4 {
        "4"
    } else if d == 5 {
        "5"
    } else if d == 6 {
        "6"
    } else if d == 7 {
        "7"
    } else if d == 8 {
        "8"
    } else {
        "9"
    };
    assert(text@ =~= seq![digit_char(d as nat)]);
    text
}

/// Appends the digits of `n` to `out`.
fn push_decimal_digits(out: &mut String, n: u64)
    ensures
        final(out)@ == old(out)@ + decimal_digits(n as nat),
    decreases n,
{
    if n >= 10 {
        push_decimal_digits(out, n / 10);
    }
    out.append(digit_text(n % 10));
    proof {
        if n >= 10 {
            assert(final(out)@ =~= old(out)@ + decimal_digits(n as nat));
        }
    }
}

/// Writes `v` in its canonical decimal form.
pub fn render_integer(v: i32) -> (text: String)
    ensures
        text@ == decimal_text(v as int),
{
    let mut text = String::new();
    if v < 0 {
        proof {
            reveal_strlit("-");
        }
        text.append("-");
        let magnitude: u64 = (-(v as i64)) as u64;
        push_decimal_digits(&mut text, magnitude);
        assert(text@ =~= decimal_text(v as int));
    } else {
        push_decimal_digits(&mut text, v as u64);
        assert(text@ =~= decimal_text(v as int));
    }
    text
}

/// Writes a count in decimal, without leading zeros.
pub fn render_count(n: usize) -> (text: String)
    ensures
        text@ == decimal_digits(n as nat),
{
    let mut text = String::new();
    push_decimal_digits(&mut text, n as u64);
    assert(text@ =~= decimal_digits(n as nat));
    text
}

/// Reads a 32-bit integer from `text`: an optional `+` or `-`, then one or
/// more ASCII digits and nothing else. `None` where the text has another
/// shape or the number does not fit in 32 bits.
pub fn parse_integer(text: &str) -> (value: Option<i32>)
    ensures
        value == integer_of_text(text@),
{
    broadcast use vstd::string::group_string_axioms;

    let mut first: bool = true;
    let mut signed: bool = false;
    let mut negative: bool = false;
    let mut seen_digit: bool = false;
    let mut acc: u64 = 0;
    let ghost start: int = 0;
    for c in iter: text.chars()
        invariant
            iter.seq() == text@,
            first == (iter.index() == 0),
            start == (if signed { 1int } else { 0int }),
            signed ==> iter.index() >= 1 && has_sign(text@),
            !signed && iter.index() >= 1 ==> !has_sign(text@),
            negative == (signed && text@[0] == '-'),
            seen_digit == (iter.index() > start),
            start <= iter.index() || iter.index() == 0,
            iter.index() >= start ==> all_digits(text@.subrange(start, iter.index() as int)),
            iter.index() >= start ==> acc == digits_value(
                text@.subrange(start, iter.index() as int),
            ),
            acc <= MAX_MAGNITUDE,
    {
        let ghost at: int = iter.index() as int;
        if first && (c == '-' || c == '+') {
            signed = true;
            negative = c == '-';
            proof {
                start = 1;
                assert(text@.subrange(1, 1) =~= Seq::<char>::empty());
            }
        } else if c >= '0' && c <= '9' {
            let digit: u64 = (c as u32 - '0' as u32) as u64;
            let next: u64 = acc * 10 + digit;
            proof {
                let prefix = text@.subrange(start, at + 1);
                assert(prefix.drop_last() =~= text@.subrange(start, at));
                assert(prefix.last() == c);
                assert(digits_value(prefix) == next);
                assert forall|i: int| 0 <= i < prefix.len() implies is_digit(
                    #[trigger] prefix[i],
                ) by {
                    if i < prefix.len() - 1 {
                        assert(prefix[i] == text@.subrange(start, at)[i]);
                    }
                }
            }
            if next > MAX_MAGNITUDE {
                proof {
                    let body = unsigned_part(text@);
                    assert(body =~= text@.subrange(start, text@.len() as int));
                    assert(body.take(at + 1 - start) =~= text@.subrange(start, at + 1));
                    lemma_digits_value_grows(body, at + 1 - start);
                }
                return None;
            }
            acc = next;
            seen_digit = true;
        } else {
            proof {
                let body = unsigned_part(text@);
                assert(body =~= text@.subrange(start, text@.len() as int));
                assert(body[at - start] == c);
                assert(!is_digit(body[at - start]));
            }
            return None;
        }
        first = false;
    }
    proof {
        let body = unsigned_part(text@);
        assert(body =~= text@.subrange(start, text@.len() as int));
    }
    if !seen_digit {
        None
    } else if negative {
        Some((-(acc as i64)) as i32)
    } else if acc < MAX_MAGNITUDE {
        Some(acc as i32)
    } else {
        None
    }
}

} // verus!
