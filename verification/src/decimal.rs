//! Decimal numbers as bytes: reading them and writing them.

use vstd::prelude::*;

verus! {

pub const PLUS: u8 = 43;

pub const ZERO: u8 = 48;

/// Whether `b` is an ASCII decimal digit.
pub open spec fn is_digit(b: u8) -> bool {
    ZERO <= b <= ZERO + 9
}

/// The number that the decimal digits `d` write; leading zeros count for
/// nothing.
pub open spec fn decimal_value(d: Seq<u8>) -> nat
    decreases d.len(),
{
    if d.len() == 0 {
        0
    } else {
        decimal_value(d.drop_last()) * 10 + (d.last() - ZERO) as nat
    }
}

/// Whether every byte of `d` is a decimal digit.
pub open spec fn all_digits(d: Seq<u8>) -> bool {
    forall|i: int| 0 <= i < d.len() ==> is_digit(#[trigger] d[i])
}

/// The digits of `s` once one leading `+` is dropped.
pub open spec fn unsigned_digits(s: Seq<u8>) -> Seq<u8> {
    if s.len() > 0 && s[0] == PLUS {
        s.subrange(1, s.len() as int)
    } else {
        s
    }
}

/// The number that `s` writes where it is no more than `limit`: an optional
/// `+`, then one or more decimal digits. Anything else writes no number.
pub open spec fn parse_decimal(s: Seq<u8>, limit: nat) -> Option<nat> {
    let d = unsigned_digits(s);
    if d.len() > 0 && all_digits(d) && decimal_value(d) <= limit {
        Some(decimal_value(d))
    } else {
        None
    }
}

/// The number that `s` writes, where it fits 64 bits.
pub open spec fn parse_u64(s: Seq<u8>) -> Option<u64> {
    match parse_decimal(s, u64::MAX as nat) {
        Some(n) => Some(n as u64),
        None => None,
    }
}

/// The length that `s` writes, where it fits `usize`.
pub open spec fn parse_length(s: Seq<u8>) -> Option<usize> {
    match parse_decimal(s, usize::MAX as nat) {
        Some(n) => Some(n as usize),
        None => None,
    }
}

/// The value of digits grows with each digit appended.
pub proof fn lemma_decimal_value_prefix(d: Seq<u8>, k: int)
    requires
        0 <= k <= d.len(),
        all_digits(d),
    ensures
        decimal_value(d.subrange(0, k)) <= decimal_value(d),
    decreases d.len() - k,
{
    if k < d.len() {
        lemma_decimal_value_prefix(d, k + 1);
        let longer = d.subrange(0, k + 1);
        assert(longer.drop_last() =~= d.subrange(0, k));
        assert(is_digit(d[k]));
        assert(longer.last() == d[k]);
    } else {
        assert(d.subrange(0, k) =~= d);
    }
}

/// Reads a number as `parse_u64` defines it.
pub fn read_u64(s: &[u8]) -> (r: Option<u64>)
    ensures
        r == parse_u64(s@),
{
    let start: usize = if s.len() > 0 && s[0] == PLUS { 1 } else { 0 };
    let ghost d = unsigned_digits(s@);
    assert(d =~= s@.subrange(start as int, s@.len() as int));
    if start == s.len() {
        return None;
    }
    let mut value: u64 = 0;
    let mut i: usize = start;
    while i < s.len()
        invariant
            start <= i <= s.len(),
            d == unsigned_digits(s@),
            d =~= s@.subrange(start as int, s@.len() as int),
            all_digits(d.subrange(0, i - start)),
            value as nat == decimal_value(d.subrange(0, i - start)),
        decreases s.len() - i,
    {
        let b = s[i];
        let ghost next = d.subrange(0, i - start + 1);
        proof {
            assert(next.drop_last() =~= d.subrange(0, i - start));
            assert(next.last() == b);
        }
        if !(ZERO <= b && b <= ZERO + 9) {
            assert(!is_digit(d[i - start]));
            return None;
        }
        assert(all_digits(next)) by {
            assert forall|j: int| 0 <= j < next.len() implies is_digit(#[trigger] next[j]) by {
                if j < i - start {
                    assert(next[j] == d.subrange(0, i - start)[j]);
                }
            }
        }
        let digit: u64 = (b - ZERO) as u64;
        let grown = match value.checked_mul(10) {
            Some(tens) => tens.checked_add(digit),
            None => None,
        };
        match grown {
            Some(v) => {
                value = v;
            },
            None => {
                proof {
                    assert(decimal_value(next) > u64::MAX);
                    if all_digits(d) {
                        lemma_decimal_value_prefix(d, i - start + 1);
                    }
                }
                return None;
            },
        }
        i += 1;
    }
    assert(d.subrange(0, i - start) =~= d);
    Some(value)
}

/// Reads a length as `parse_length` defines it.
pub fn read_length(s: &[u8]) -> (r: Option<usize>)
    ensures
        r == parse_length(s@),
{
    match read_u64(s) {
        Some(n) => if n <= usize::MAX as u64 {
            Some(n as usize)
        } else {
            None
        },
        None => None,
    }
}

/// The decimal digits that write `n`, without sign or leading zeros.
pub open spec fn decimal(n: nat) -> Seq<u8>
    decreases n,
{
    if n < 10 {
        seq![(ZERO + n) as u8]
    } else {
        decimal(n / 10).push((ZERO + n % 10) as u8)
    }
}

/// `decimal(n)` is one digit or more, and reads back as `n`.
pub proof fn lemma_decimal(n: nat)
    ensures
        decimal(n).len() > 0,
        all_digits(decimal(n)),
        decimal_value(decimal(n)) == n,
    decreases n,
{
    if n < 10 {
        let d = decimal(n);
        assert(d.drop_last() =~= Seq::<u8>::empty());
        assert(decimal_value(d.drop_last()) == 0);
    } else {
        lemma_decimal(n / 10);
        let head = decimal(n / 10);
        let d = decimal(n);
        assert(d.drop_last() =~= head);
        assert forall|i: int| 0 <= i < d.len() implies is_digit(#[trigger] d[i]) by {
            if i < head.len() {
                assert(d[i] == head[i]);
            }
        }
    }
}

/// Appends the decimal digits of `n` to `out`.
pub fn push_decimal(out: &mut Vec<u8>, n: usize)
    ensures
        final(out)@ == old(out)@ + decimal(n as nat),
    decreases n,
{
    if n >= 10 {
        push_decimal(out, n / 10);
    }
    out.push(ZERO + (n % 10) as u8);
}

} // verus!
