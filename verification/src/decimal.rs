//! Balances on the wire: unsigned decimal ASCII, most significant digit first.

use vstd::prelude::*;

verus! {

/// `b` is one of the ASCII digits `'0'..='9'`.
pub open spec fn is_digit(b: u8) -> bool {
    48 <= b <= 57
}

/// `s` is a non-empty run of ASCII digits: no sign, no blanks, nothing else.
pub open spec fn is_decimal(s: Seq<u8>) -> bool {
    &&& s.len() > 0
    &&& forall|i: int| 0 <= i < s.len() ==> is_digit(#[trigger] s[i])
}

/// The number that the digits of `s` denote in base ten.
pub open spec fn decimal_value(s: Seq<u8>) -> nat
    decreases s.len(),
{
    if s.len() == 0 {
        0
    } else {
        10 * decimal_value(s.drop_last()) + (s.last() - 48) as nat
    }
}

/// The shortest decimal spelling of `n`: a single `'0'` for zero, and no
/// leading zero otherwise.
pub open spec fn decimal_digits(n: nat) -> Seq<u8>
    decreases n,
{
    if n < 10 {
        seq![(48 + n) as u8]
    } else {
        decimal_digits(n / 10).push((48 + n % 10) as u8)
    }
}

/// A run of digits is worth at least as much as each of its prefixes.
pub proof fn lemma_decimal_value_prefix(s: Seq<u8>, k: int)
    requires
        0 <= k <= s.len(),
    ensures
        decimal_value(s.take(k)) <= decimal_value(s),
    decreases s.len() - k,
{
    if k < s.len() {
        assert(s.take(k + 1).drop_last() =~= s.take(k));
        lemma_decimal_value_prefix(s, k + 1);
    } else {
        assert(s.take(k) =~= s);
    }
}

/// Reads a balance: `Some(n)` exactly when `bytes` is a run of digits that
/// denotes a number `n` within `u64`, and `None` for anything else (empty
/// input, a sign, a blank, a letter, a number too large).
pub fn parse_decimal(bytes: &[u8]) -> (parsed: Option<u64>)
    ensures
        parsed == if is_decimal(bytes@) && decimal_value(bytes@) <= u64::MAX {
            Some(decimal_value(bytes@) as u64)
        } else {
            None
        },
{
    let n: usize = bytes.len();
    if n == 0 {
        return None;
    }
    let mut value: u64 = 0;
    let mut i: usize = 0;
    while i < n
        invariant
            n == bytes@.len(),
            0 <= i <= n,
            forall|j: int| 0 <= j < i ==> is_digit(#[trigger] bytes@[j]),
            value == decimal_value(bytes@.take(i as int)),
        decreases n - i,
    {
        let b: u8 = bytes[i];
        if b < 48 || b > 57 {
            return None;
        }
        let digit: u64 = (b - 48) as u64;
        proof {
            assert(bytes@.take(i as int + 1).drop_last() =~= bytes@.take(i as int));
            lemma_decimal_value_prefix(bytes@, i as int + 1);
        }
        let shifted: u64 = match value.checked_mul(10) {
            Some(v) => v,
            None => {
                return None;
            },
        };
        value = match shifted.checked_add(digit) {
            Some(v) => v,
            None => {
                return None;
            },
        };
        i = i + 1;
    }
    assert(bytes@.take(n as int) =~= bytes@);
    Some(value)
}

/// `s` is a run of digits in its shortest form: a lone digit, or a longer
/// run that does not start with `'0'`.
pub open spec fn is_canonical(s: Seq<u8>) -> bool {
    is_decimal(s) && (s.len() == 1 || s[0] != 48)
}

/// What `decimal_digits` writes is a run of digits in its shortest form.
pub proof fn lemma_decimal_digits_canonical(n: nat)
    ensures
        is_canonical(decimal_digits(n)),
        n == 0 ==> decimal_digits(n) == seq![48u8],
        n > 0 ==> decimal_digits(n)[0] != 48,
    decreases n,
{
    if n >= 10 {
        lemma_decimal_digits_canonical(n / 10);
    }
}

/// Reading back what was written gives the number that was written: the
/// decimal spelling of every `n` is a run of digits whose value is `n`,
/// however large `n` is.
pub proof fn lemma_decimal_round_trip(n: nat)
    ensures
        is_decimal(decimal_digits(n)),
        decimal_value(decimal_digits(n)) == n,
    decreases n,
{
    lemma_decimal_digits_canonical(n);
    let s = decimal_digits(n);
    if n < 10 {
        assert(s.drop_last() =~= Seq::<u8>::empty());
        assert(decimal_value(s.drop_last()) == 0);
    } else {
        lemma_decimal_round_trip(n / 10);
        assert(s.drop_last() =~= decimal_digits(n / 10));
    }
}

/// Writing again what was read gives the digits that were read, provided
/// they were in their shortest form: a number has one such spelling.
pub proof fn lemma_decimal_spelling_unique(s: Seq<u8>)
    requires
        is_canonical(s),
    ensures
        decimal_digits(decimal_value(s)) == s,
    decreases s.len(),
{
    let front = s.drop_last();
    if s.len() == 1 {
        assert(front =~= Seq::<u8>::empty());
        assert(decimal_value(front) == 0);
        assert(decimal_digits(decimal_value(s)) =~= s);
    } else {
        assert(is_canonical(front));
        lemma_decimal_spelling_unique(front);
        lemma_decimal_value_prefix(front, 1);
        assert(front.take(1).drop_last() =~= Seq::<u8>::empty());
        assert(decimal_value(front.take(1).drop_last()) == 0);
        assert(decimal_value(front) >= 1);
        assert(decimal_digits(decimal_value(s)) =~= s);
    }
}

/// Writes a balance in its shortest decimal spelling. What it writes reads
/// back as `n`.
pub fn encode_decimal(n: u64) -> (digits: Vec<u8>)
    ensures
        digits@ == decimal_digits(n as nat),
        is_canonical(digits@),
        decimal_value(digits@) == n,
    decreases n,
{
    proof {
        lemma_decimal_digits_canonical(n as nat);
        lemma_decimal_round_trip(n as nat);
    }
    if n < 10 {
        let digit: u8 = 48 + n as u8;
        let digits: Vec<u8> = vec![digit];
        assert(digits@ =~= decimal_digits(n as nat));
        digits
    } else {
        let mut digits: Vec<u8> = encode_decimal(n / 10);
        let digit: u8 = 48 + (n % 10) as u8;
        digits.push(digit);
        digits
    }
}

} // verus!
