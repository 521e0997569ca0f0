use vstd::prelude::*;

verus! {

/// The character for one decimal digit.
pub open spec fn spec_digit(d: int) -> char {
    if d == 0 {
        '0'
    } else if d == 1 {
        '1'
    } else if d == 2 {
        '2'
    } else if d == 3 {
        '3'
    } else if d == 4 {
        '4'
    } else if d == 5 {
        '5'
    } else if d == 6 {
        '6'
    } else if d == 7 {
        '7'
    } else if d == 8 {
        '8'
    } else {
        '9'
    }
}

/// Decimal representation of a non-negative number, most significant digit
/// first, without leading zeros (a single `'0'` for zero).
pub open spec fn spec_decimal(n: nat) -> Seq<char>
    decreases n,
{
    if n < 10 {
        seq![spec_digit(n as int)]
    } else {
        spec_decimal(n / 10).push(spec_digit((n % 10) as int))
    }
}

/// Decimal representation padded with `'0'` to at least two digits, as the
/// `{:02}` format writes it.
pub open spec fn spec_two_digit(n: nat) -> Seq<char> {
    if n < 10 {
        seq!['0', spec_digit(n as int)]
    } else {
        spec_decimal(n)
    }
}

/// A second count as `mm:ss`: whole minutes, a colon, and the leftover
/// seconds, both zero-padded to two digits.
pub open spec fn spec_mmss(total_secs: nat) -> Seq<char> {
    spec_two_digit(total_secs / 60) + seq![':'] + spec_two_digit(total_secs % 60)
}

/// The transport label `mm:ss / mm:ss`: elapsed time, then total time, both
/// truncated to whole seconds.
pub open spec fn spec_label(current_secs: nat, total_secs: nat) -> Seq<char> {
    spec_mmss(current_secs) + seq![' ', '/', ' '] + spec_mmss(total_secs)
}

fn digit_char(d: u64) -> (c: char)
    requires
        d < 10,
    ensures
        c == spec_digit(d as int),
{
    if d == 0 {
        '0'
    } else if d == 1 {
        '1'
    } else if d == 2 {
        '2'
    } else if d == 3 {
        '3'
    } else if d == 4 {
        '4'
    } else if d == 5 {
        '5'
    } else if d == 6 {
        '6'
    } else if d == 7 {
        '7'
    } else if d == 8 {
        '8'
    } else {
        '9'
    }
}

/// Appends the decimal representation of `n`.
fn push_decimal(s: &mut String, n: u64)
    ensures
        final(s)@ == old(s)@ + spec_decimal(n as nat),
    decreases n,
{
    if n >= 10 {
        push_decimal(s, n / 10);
    }
    s.push(digit_char(n % 10));
    proof {
        assert(s@ =~= old(s)@ + spec_decimal(n as nat));
    }
}

/// Appends `n` zero-padded to at least two digits.
fn push_two_digit(s: &mut String, n: u64)
    ensures
        final(s)@ == old(s)@ + spec_two_digit(n as nat),
{
    if n < 10 {
        s.push('0');
        s.push(digit_char(n));
        proof {
            assert(s@ =~= old(s)@ + spec_two_digit(n as nat));
        }
    } else {
        push_decimal(s, n);
    }
}

/// Appends `total_secs` formatted as `mm:ss`.
pub fn push_mmss(s: &mut String, total_secs: u64)
    ensures
        final(s)@ == old(s)@ + spec_mmss(total_secs as nat),
{
    push_two_digit(s, total_secs / 60);
    s.push(':');
    push_two_digit(s, total_secs % 60);
    proof {
        assert(s@ =~= old(s)@ + spec_mmss(total_secs as nat));
    }
}

} // verus!
