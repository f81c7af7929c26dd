use vstd::prelude::*;

verus! {

/// The character of a decimal digit.
pub open spec fn digit_char(d: nat) -> char {
    seq!['0', '1', '2', '3', '4', '5', '6', '7', '8', '9'][d as int]
}

/// The decimal notation of `n`, most significant digit first, without sign
/// or leading zeros.
pub open spec fn decimal(n: nat) -> Seq<char>
    decreases n,
{
    if n < 10 {
        seq![digit_char(n)]
    } else {
        decimal(n / 10).push(digit_char(n % 10))
    }
}

/// `k` copies of the character `c`.
pub open spec fn repeat_char(c: char, k: nat) -> Seq<char> {
    Seq::new(k, |i: int| c)
}

/// Relies on String::push: the character is appended at the end.
#[verifier::external_body]
pub(crate) fn push_char(s: &mut String, c: char)
    ensures
        final(s)@ == old(s)@.push(c),
{
    s.push(c)
}

pub(crate) fn push_str(s: &mut String, t: &str)
    ensures
        final(s)@ == old(s)@ + t@,
{
    s.append(t);
}

fn digit_of(d: u64) -> (c: char)
    requires
        d < 10,
    ensures
        c == digit_char(d as nat),
{
    if d == 0 {
        '0'
    } else if d == 1 {
        '1'
    } else if d == 2 {
        '2'
    } else if d == 3 {
        '3'
    } else if d == 4 {
        '4'
    } else if d == 5 {
        '5'
    } else if d == 6 {
        '6'
    } else if d == 7 {
        '7'
    } else if d == 8 {
        '8'
    } else {
        '9'
    }
}

/// Appends the decimal notation of `n`.
pub fn push_decimal(s: &mut String, n: u64)
    ensures
        final(s)@ == old(s)@ + decimal(n as nat),
    decreases n,
{
    if n >= 10 {
        push_decimal(s, n / 10);
    }
    let d = digit_of(n % 10);
    push_char(s, d);
    proof {
        if n >= 10 {
            assert(decimal(n as nat) == decimal((n / 10) as nat).push(digit_char((n % 10) as nat)));
        }
        assert(final(s)@ =~= old(s)@ + decimal(n as nat));
    }
}

/// Appends `k` copies of `c`.
pub fn push_repeated(s: &mut String, c: char, k: u64)
    ensures
        final(s)@ == old(s)@ + repeat_char(c, k as nat),
{
    let mut i: u64 = 0;
    while i < k
        invariant
            i <= k,
            s@ == old(s)@ + repeat_char(c, i as nat),
        decreases k - i,
    {
        push_char(s, c);
        i = i + 1;
        assert(s@ =~= old(s)@ + repeat_char(c, i as nat));
    }
}

} // verus!
