//! Decimal notation of integers.
use vstd::prelude::*;

verus! {

/// The character of the decimal digit `d`.
pub open spec fn digit(d: int) -> char {
    (('0' as u8) + d) as char
}

/// The decimal digits of `n`, most significant first, without leading zeros.
pub open spec fn digits(n: nat) -> Seq<char>
    decreases n,
{
    if n < 10 {
        seq![digit(n as int)]
    } else {
        digits(n / 10).push(digit((n % 10) as int))
    }
}

/// The decimal notation of `i`: its digits, after a minus sign where `i` is
/// negative.
pub open spec fn decimal(i: int) -> Seq<char> {
    if i < 0 {
        seq!['-'] + digits((-i) as nat)
    } else {
        digits(i as nat)
    }
}

/// Appends the decimal digits of `n` to `s`.
fn push_digits(s: &mut String, n: u64)
    ensures
        final(s)@ == old(s)@ + digits(n as nat),
    decreases n,
{
    if n >= 10 {
        push_digits(s, n / 10);
    }
    let d: u8 = (n % 10) as u8;
    s.push((48u8 + d) as char);
    proof {
        if n >= 10 {
            assert(old(s)@ + digits((n / 10) as nat).push(digit((n % 10) as int)) =~= (old(s)@
                + digits((n / 10) as nat)).push(digit((n % 10) as int)));
        } else {
            assert(old(s)@ + seq![digit(n as int)] =~= old(s)@.push(digit(n as int)));
        }
    }
}

/// The decimal notation of `n`.
pub fn unsigned_decimal(n: u64) -> (s: String)
    ensures
        s@ == decimal(n as int),
{
    let mut s = String::new();
    push_digits(&mut s, n);
    assert(Seq::<char>::empty() + digits(n as nat) =~= digits(n as nat));
    s
}

/// The decimal notation of `n`.
pub fn signed_decimal(n: i64) -> (s: String)
    ensures
        s@ == decimal(n as int),
{
    let mut s = String::new();
    if n < 0 {
        s.push('-');
        let magnitude: u64 = ((-(n + 1)) as u64) + 1;
        push_digits(&mut s, magnitude);
        assert(Seq::<char>::empty().push('-') =~= seq!['-']);
    } else {
        push_digits(&mut s, n as u64);
        assert(Seq::<char>::empty() + digits(n as nat) =~= digits(n as nat));
    }
    s
}

} // verus!
