//! The console lines of the server, and the decoding of received bytes.

use vstd::prelude::*;
use vstd::string::*;
use vstd::utf8::*;

verus! {

/// The character that stands for the decimal digit `d`.
pub open spec fn digit_char(d: nat) -> char
    recommends
        d < 10,
{
    ('0' as nat + d) as char
}

/// The decimal numeral of `n`: most significant digit first, no leading zero,
/// and the single digit `0` for zero.
pub open spec fn decimal_digits(n: nat) -> Seq<char>
    decreases n,
{
    if n < 10 {
        seq![digit_char(n)]
    } else {
        decimal_digits(n / 10).push(digit_char(n % 10))
    }
}

/// The digit that the character `c` stands for.
pub open spec fn digit_value(c: char) -> nat
    recommends
        '0' <= c <= '9',
{
    (c as nat - '0' as nat) as nat
}

/// The number that the decimal numeral `digits` stands for.
pub open spec fn numeral_value(digits: Seq<char>) -> nat
    decreases digits.len(),
{
    if digits.len() == 0 {
        0
    } else {
        numeral_value(digits.drop_last()) * 10 + digit_value(digits.last())
    }
}

/// A numeral reads back as its number.
///
/// The numeral of `n` is made of decimal digits only, has at least one of
/// them, starts with a zero only when `n` is zero, and stands for `n`. So two
/// numbers with the same numeral are the same number.
pub proof fn lemma_numeral_stands_for_its_number(n: nat)
    ensures
        decimal_digits(n).len() >= 1,
        forall|i: int|
            0 <= i < decimal_digits(n).len() ==> '0' <= #[trigger] decimal_digits(n)[i] <= '9',
        decimal_digits(n)[0] == '0' <==> n == 0,
        numeral_value(decimal_digits(n)) == n,
    decreases n,
{
    let digits = decimal_digits(n);
    if n < 10 {
        assert(digits.drop_last() =~= Seq::<char>::empty());
        assert(numeral_value(digits.drop_last()) == 0);
    } else {
        let higher = decimal_digits(n / 10);
        lemma_numeral_stands_for_its_number(n / 10);
        assert(digits.drop_last() =~= higher);
        assert(digits.last() == digit_char(n % 10));
        assert(digits[0] == higher[0]);
        assert forall|i: int| 0 <= i < digits.len() implies '0' <= #[trigger] digits[i] <= '9' by {
            if i < higher.len() {
                assert(digits[i] == higher[i]);
            }
        }
    }
}

/// The one-character string of a decimal digit.
fn digit_str(d: usize) -> (s: &'static str)
    requires
        d < 10,
    ensures
        s@ == seq![digit_char(d as nat)],
{
    proof {
        reveal_strlit("0");
        reveal_strlit("1");
        reveal_strlit("2");
        reveal_strlit("3");
        reveal_strlit("4");
        reveal_strlit("5");
        reveal_strlit("6");
        reveal_strlit("7");
        reveal_strlit("8");
        reveal_strlit("9");
    }
    let s = if d == 0 {
        "0"
    } else if d == 1 {
        "1"
    } else if d == 2 {
        "2"
    } else if d == 3 {
        "3"
    } else if d == 4 {
        "4"
    } else if d == 5 {
        "5"
    } else if d == 6 {
        "6"
    } else if d == 7 {
        "7"
    } else if d == 8 {
        "8"
    } else {
        "9"
    };
    assert(s@ =~= seq![digit_char(d as nat)]);
    s
}

/// Appends the decimal numeral of `n` to `out`.
pub fn push_decimal(out: &mut String, n: usize)
    ensures
        final(out)@ == old(out)@ + decimal_digits(n as nat),
    decreases n,
{
    if n < 10 {
        out.append(digit_str(n));
    } else {
        push_decimal(out, n / 10);
        out.append(digit_str(n % 10));
        assert(out@ =~= old(out)@ + decimal_digits(n as nat));
    }
}

/// The decimal numeral of `n` as a string.
pub fn render_decimal(n: usize) -> (numeral: String)
    ensures
        numeral@ == decimal_digits(n as nat),
{
    let mut numeral = String::new();
    push_decimal(&mut numeral, n);
    assert(numeral@ =~= decimal_digits(n as nat));
    numeral
}

/// The line that reports a successful read of `count` bytes that decoded to
/// `text`: `read <count> bytes: <text>`.
pub open spec fn read_report(count: nat, text: Seq<char>) -> Seq<char> {
    "read "@ + decimal_digits(count) + " bytes: "@ + text
}

/// The line that reports a successful write of `count` bytes:
/// `write <count> bytes`.
pub open spec fn write_report(count: nat) -> Seq<char> {
    "write "@ + decimal_digits(count) + " bytes"@
}

/// The line that reports a failed accept, given a description of its cause:
/// `couldn't get client: <cause>`.
pub open spec fn accept_failure_report(cause: Seq<char>) -> Seq<char> {
    "couldn't get client: "@ + cause
}

/// Builds the line for a successful read.
pub fn render_read_report(count: usize, text: &str) -> (line: String)
    ensures
        line@ == read_report(count as nat, text@),
{
    let mut line = String::from_str("read ");
    push_decimal(&mut line, count);
    line.append(" bytes: ");
    line.append(text);
    line
}

/// Builds the line for a successful write.
pub fn render_write_report(count: usize) -> (line: String)
    ensures
        line@ == write_report(count as nat),
{
    let mut line = String::from_str("write ");
    push_decimal(&mut line, count);
    line.append(" bytes");
    line
}

/// Builds the line for a failed accept.
pub fn render_accept_failure_report(cause: &str) -> (line: String)
    ensures
        line@ == accept_failure_report(cause@),
{
    let mut line = String::from_str("couldn't get client: ");
    line.append(cause);
    line
}

/// `String::from_utf8` of the standard library, with its error dropped.
///
/// Trusted: the call succeeds exactly when the bytes are well-formed UTF-8,
/// and the string it then returns is made of those same bytes.
#[verifier::external_body]
fn string_from_utf8(bytes: Vec<u8>) -> (decoded: Option<String>)
    ensures
        decoded is Some <==> valid_utf8(bytes@),
        decoded matches Some(s) ==> encode_utf8(s@) == bytes@,
{
    match String::from_utf8(bytes) {
        Ok(s) => Some(s),
        Err(_) => None,
    }
}

/// Decodes received bytes as text.
///
/// Returns the decoded characters when the bytes are well-formed UTF-8, and
/// `None` otherwise.
pub fn decode_text(bytes: Vec<u8>) -> (text: Option<String>)
    ensures
        text is Some <==> valid_utf8(bytes@),
        text matches Some(s) ==> s@ == decode_utf8(bytes@),
{
    let text = string_from_utf8(bytes);
    proof {
        if text is Some {
            encode_utf8_decode_utf8(text->0@);
        }
    }
    text
}

} // verus!
