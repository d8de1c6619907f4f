use vstd::prelude::*;

verus! {

/// The character of a decimal digit.
pub open spec fn digit_char(d: int) -> char {
    if d == 0 { '0' }
    else if d == 1 { '1' }
    else if d == 2 { '2' }
    else if d == 3 { '3' }
    else if d == 4 { '4' }
    else if d == 5 { '5' }
    else if d == 6 { '6' }
    else if d == 7 { '7' }
    else if d == 8 { '8' }
    else { '9' }
}

/// The decimal digits of a natural number, without leading zeros ("0" for zero).
pub open spec fn decimal(n: nat) -> Seq<char>
    decreases n,
{
    if n < 10 {
        seq![digit_char(n as int)]
    } else {
        decimal(n / 10).push(digit_char((n % 10) as int))
    }
}

/// The decimal text of a signed integer, with a leading minus sign when negative.
pub open spec fn signed_decimal(i: int) -> Seq<char> {
    if i < 0 {
        seq!['-'] + decimal((-i) as nat)
    } else {
        decimal(i as nat)
    }
}

/// The decimal digits of `n`, padded with zeros on the left to at least two digits.
pub open spec fn two_digits(n: nat) -> Seq<char> {
    if n < 10 {
        seq!['0', digit_char(n as int)]
    } else {
        decimal(n)
    }
}

/// Whole seconds in a count of milliseconds; a negative count reads as zero.
pub open spec fn whole_seconds(ms: int) -> nat {
    if ms < 0 { 0 } else { (ms / 1000) as nat }
}

/// `MM:SS` of a time given in milliseconds, truncated to the whole second.
pub open spec fn clock_text(ms: int) -> Seq<char> {
    let s = whole_seconds(ms);
    two_digits(s / 60) + seq![':'] + two_digits(s % 60)
}

/// The playback label: position and duration, `MM:SS / MM:SS`.
pub open spec fn label_text(position_ms: int, duration_ms: int) -> Seq<char> {
    clock_text(position_ms) + seq![' ', '/', ' '] + clock_text(duration_ms)
}

fn digit_str(d: u64) -> (r: &'static str)
    requires
        d < 10,
    ensures
        r@ == seq![digit_char(d as int)],
{
    proof {
        reveal_strlit("0");
        reveal_strlit("1");
        reveal_strlit("2");
        reveal_strlit("3");
        reveal_strlit("4");
        reveal_strlit("5");
        reveal_strlit("6");
        reveal_strlit("7");
        reveal_strlit("8");
        reveal_strlit("9");
    }
    if d == 0 { "0" }
    else if d == 1 { "1" }
    else if d == 2 { "2" }
    else if d == 3 { "3" }
    else if d == 4 { "4" }
    else if d == 5 { "5" }
    else if d == 6 { "6" }
    else if d == 7 { "7" }
    else if d == 8 { "8" }
    else { "9" }
}

/// Appends the decimal digits of `n` to `out`.
pub fn push_decimal(out: &mut String, n: u64)
    ensures
        final(out)@ == old(out)@ + decimal(n as nat),
    decreases n,
{
    if n < 10 {
        out.append(digit_str(n));
    } else {
        push_decimal(out, n / 10);
        out.append(digit_str(n % 10));
        assert(final(out)@ =~= old(out)@ + decimal(n as nat));
    }
}

/// The decimal text of a signed integer, such as `5` or `-5`.
pub fn signed_decimal_string(i: i64) -> (r: String)
    ensures
        r@ == signed_decimal(i as int),
{
    let mut out = String::new();
    if i < 0 {
        proof { reveal_strlit("-"); }
        out.append("-");
        let m: u64 = if i == i64::MIN { 9223372036854775808u64 } else { (-i) as u64 };
        push_decimal(&mut out, m);
    } else {
        push_decimal(&mut out, i as u64);
    }
    out
}

fn push_two_digits(out: &mut String, n: u64)
    ensures
        final(out)@ == old(out)@ + two_digits(n as nat),
{
    if n < 10 {
        proof { reveal_strlit("0"); }
        out.append("0");
        out.append(digit_str(n));
        assert(final(out)@ =~= old(out)@ + two_digits(n as nat));
    } else {
        push_decimal(out, n);
    }
}

fn push_clock(out: &mut String, ms: i64)
    ensures
        final(out)@ == old(out)@ + clock_text(ms as int),
{
    let s: u64 = if ms < 0 { 0 } else { (ms / 1000) as u64 };
    push_two_digits(out, s / 60);
    proof { reveal_strlit(":"); }
    out.append(":");
    push_two_digits(out, s % 60);
    assert(final(out)@ =~= old(out)@ + clock_text(ms as int));
}

/// Formats a time in milliseconds as `MM:SS`, truncating to the whole second;
/// minutes take more digits when there are more than 99 of them.
pub fn format_time(ms: i64) -> (r: String)
    ensures
        r@ == clock_text(ms as int),
{
    let mut out = String::new();
    push_clock(&mut out, ms);
    assert(out@ =~= clock_text(ms as int));
    out
}

/// The label shown beside the slider: `position / duration`.
pub fn time_label(position_ms: i64, duration_ms: i64) -> (r: String)
    ensures
        r@ == label_text(position_ms as int, duration_ms as int),
{
    let mut out = String::new();
    push_clock(&mut out, position_ms);
    proof { reveal_strlit(" / "); }
    out.append(" / ");
    push_clock(&mut out, duration_ms);
    assert(out@ =~= label_text(position_ms as int, duration_ms as int));
    out
}

} // verus!
