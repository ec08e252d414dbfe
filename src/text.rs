//! Rendering of integers and durations as text.

use vstd::prelude::*;
use vstd::string::StringExecFns;

verus! {

/// The character of a decimal digit.
pub open spec fn digit_char(d: nat) -> char {
    if d == 0 {
        '0'
    } else if d == 1 {
        '1'
    } else if d == 2 {
        '2'
    } else if d == 3 {
        '3'
    } else if d == 4 {
        '4'
    } else if d == 5 {
        '5'
    } else if d == 6 {
        '6'
    } else if d == 7 {
        '7'
    } else if d == 8 {
        '8'
    } else {
        '9'
    }
}

/// The decimal notation of `n`, most significant digit first, no leading zeros.
pub open spec fn decimal_text(n: nat) -> Seq<char>
    decreases n,
{
    if n < 10 {
        seq![digit_char(n)]
    } else {
        decimal_text(n / 10) + seq![digit_char(n % 10)]
    }
}

/// Decimal notation has at least one digit, and two from ten on.
pub proof fn lemma_decimal_len(n: nat)
    ensures
        decimal_text(n).len() >= 1,
        n >= 10 ==> decimal_text(n).len() >= 2,
    decreases n,
{
    if n >= 10 {
        lemma_decimal_len(n / 10);
    }
}

/// Different numbers have different decimal notations.
pub proof fn lemma_decimal_injective(n: nat, m: nat)
    requires
        decimal_text(n) == decimal_text(m),
    ensures
        n == m,
    decreases n,
{
    lemma_decimal_len(n);
    lemma_decimal_len(m);
    if n >= 10 && m >= 10 {
        let a = decimal_text(n);
        let b = decimal_text(m);
        assert(a.last() == digit_char(n % 10));
        assert(b.last() == digit_char(m % 10));
        assert(a.drop_last() =~= decimal_text(n / 10));
        assert(b.drop_last() =~= decimal_text(m / 10));
        lemma_decimal_injective(n / 10, m / 10);
    } else if n < 10 && m < 10 {
        assert(decimal_text(n)[0] == digit_char(n));
        assert(decimal_text(m)[0] == digit_char(m));
    }
}

/// The text that humantime writes for a duration of `nanos` nanoseconds.
pub uninterp spec fn humantime_text(nanos: nat) -> Seq<char>;

/// Nanoseconds in one second.
pub const NANOS_PER_SEC: u128 = 1000000000;

/// The longest duration that can be held: `u64::MAX` seconds and
/// 999_999_999 nanoseconds, in nanoseconds.
pub const MAX_SPAN_NANOS: u128 = 18446744073709551615999999999;

fn digit_str(d: u32) -> (r: &'static str)
    requires
        d < 10,
    ensures
        r@ == seq![digit_char(d as nat)],
{
    if d == 0 {
        proof { reveal_strlit("0"); }
        "0"
    } else if d == 1 {
        proof { reveal_strlit("1"); }
        "1"
    } else if d == 2 {
        proof { reveal_strlit("2"); }
        "2"
    } else if d == 3 {
        proof { reveal_strlit("3"); }
        "3"
    } else if d == 4 {
        proof { reveal_strlit("4"); }
        "4"
    } else if d == 5 {
        proof { reveal_strlit("5"); }
        "5"
    } else if d == 6 {
        proof { reveal_strlit("6"); }
        "6"
    } else if d == 7 {
        proof { reveal_strlit("7"); }
        "7"
    } else if d == 8 {
        proof { reveal_strlit("8"); }
        "8"
    } else {
        proof { reveal_strlit("9"); }
        "9"
    }
}

/// Appends the decimal notation of `n` to `out`.
pub fn push_decimal(out: &mut String, n: u64)
    ensures
        final(out)@ == old(out)@ + decimal_text(n as nat),
    decreases n,
{
    if n >= 10 {
        push_decimal(out, n / 10);
    }
    let d: u64 = n % 10;
    out.append(digit_str(d as u32));
    assert(final(out)@ == old(out)@ + decimal_text(n as nat));
}

/// Relies on humantime::format_duration, shown through its Display impl:
/// the text depends on the duration alone, and a zero duration reads "0s".
#[verifier::external_body]
fn humantime_format(secs: u64, subsec_nanos: u32) -> (r: String)
    requires
        subsec_nanos < 1000000000,
    ensures
        r@ == humantime_text(secs as nat * 1000000000 + subsec_nanos as nat),
        secs == 0 && subsec_nanos == 0 ==> r@ == seq!['0', 's'],
{
    humantime::format_duration(std::time::Duration::new(secs, subsec_nanos)).to_string()
}

/// Appends the human-readable form of a duration of `nanos` nanoseconds.
pub fn push_duration(out: &mut String, nanos: u128)
    requires
        nanos <= MAX_SPAN_NANOS,
    ensures
        final(out)@ == old(out)@ + humantime_text(nanos as nat),
{
    let secs: u128 = nanos / NANOS_PER_SEC;
    let subsec: u128 = nanos % NANOS_PER_SEC;
    assert(secs <= 18446744073709551615u128) by (nonlinear_arith)
        requires
            secs == nanos / 1000000000,
            nanos <= 18446744073709551615999999999u128,
    ;
    assert(secs * 1000000000 + subsec == nanos) by (nonlinear_arith)
        requires
            secs == nanos / 1000000000,
            subsec == nanos % 1000000000,
    ;
    let piece = humantime_format(secs as u64, subsec as u32);
    out.append(piece.as_str());
}

} // verus!
