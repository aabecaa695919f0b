//! Decimal rendering of counters, and the greeting messages a client sends.

use vstd::prelude::*;

verus! {

/// ASCII code of the digit `0`.
pub const ASCII_ZERO: u8 = 48;

/// The decimal digits of `n`, most significant first, without leading zeros
/// (zero itself is the single digit `0`).
pub open spec fn decimal(n: nat) -> Seq<u8>
    decreases n,
{
    if n < 10 {
        seq![(n + 48) as u8]
    } else {
        decimal(n / 10).push(((n % 10) + 48) as u8)
    }
}

/// The number that a sequence of ASCII decimal digits denotes.
pub open spec fn digits_value(s: Seq<u8>) -> int
    decreases s.len(),
{
    if s.len() == 0 {
        0
    } else {
        digits_value(s.drop_last()) * 10 + (s.last() - 48)
    }
}

/// Every byte is an ASCII decimal digit.
pub open spec fn all_digits(s: Seq<u8>) -> bool {
    forall|i: int| 0 <= i < s.len() ==> 48 <= #[trigger] s[i] <= 57
}

/// Reading back the digits of `n` gives `n`: the rendering loses nothing.
pub proof fn lemma_decimal_roundtrip(n: nat)
    ensures
        digits_value(decimal(n)) == n,
        all_digits(decimal(n)),
        decimal(n).len() >= 1,
    decreases n,
{
    if n >= 10 {
        lemma_decimal_roundtrip(n / 10);
        let d = decimal(n);
        assert(d.drop_last() =~= decimal(n / 10));
        assert(d.last() == ((n % 10) + 48) as u8);
        assert(((n % 10) + 48) as u8 == (n % 10) + 48);
        assert(digits_value(d) == digits_value(decimal(n / 10)) * 10 + (n % 10));
        assert(n == (n / 10) * 10 + n % 10);
        assert forall|i: int| 0 <= i < d.len() implies 48 <= #[trigger] d[i] <= 57 by {
            if i < d.len() - 1 {
                assert(d[i] == decimal(n / 10)[i]);
            }
        }
    } else {
        let d = decimal(n);
        assert(((n + 48) as u8) == n + 48);
        assert(d.drop_last() =~= Seq::<u8>::empty());
        assert(digits_value(d) == digits_value(d.drop_last()) * 10 + (d.last() - 48));
    }
}

/// Distinct numbers have distinct renderings.
pub proof fn lemma_decimal_injective(m: nat, n: nat)
    requires
        decimal(m) == decimal(n),
    ensures
        m == n,
{
    lemma_decimal_roundtrip(m);
    lemma_decimal_roundtrip(n);
}

/// Appends the decimal digits of `n` to `out`.
pub fn push_decimal(out: &mut Vec<u8>, n: u32)
    ensures
        final(out)@ == old(out)@ + decimal(n as nat),
    decreases n,
{
    if n >= 10 {
        push_decimal(out, n / 10);
    }
    let digit: u8 = (n % 10) as u8;
    out.push(digit + ASCII_ZERO);
    proof {
        if n >= 10 {
            assert(decimal(n as nat) == decimal((n / 10) as nat).push(((n % 10) + 48) as u8));
        }
    }
    assert(final(out)@ =~= old(out)@ + decimal(n as nat));
}

/// The bytes of the word `hello`.
pub open spec fn hello_prefix() -> Seq<u8> {
    seq![104u8, 101u8, 108u8, 108u8, 111u8]
}

/// The greeting sent in round `i` of a client session: `hello` followed by
/// the decimal digits of `i` (`hello0`, `hello1`, ...).
pub open spec fn greeting(i: nat) -> Seq<u8> {
    hello_prefix() + decimal(i)
}

/// Builds the greeting for round `i`.
pub fn hello_message(i: u32) -> (msg: Vec<u8>)
    ensures
        msg@ == greeting(i as nat),
{
    let mut msg: Vec<u8> = vec![104u8, 101u8, 108u8, 108u8, 111u8];
    assert(msg@ =~= hello_prefix());
    push_decimal(&mut msg, i);
    msg
}

/// Greetings of different rounds differ, so every message a client sends in
/// one session is distinct from the others.
pub proof fn lemma_greeting_injective(i: nat, j: nat)
    requires
        greeting(i) == greeting(j),
    ensures
        i == j,
{
    let gi = greeting(i);
    let gj = greeting(j);
    assert(gi.subrange(5, gi.len() as int) =~= decimal(i));
    assert(gj.subrange(5, gj.len() as int) =~= decimal(j));
    lemma_decimal_injective(i, j);
}

} // verus!
