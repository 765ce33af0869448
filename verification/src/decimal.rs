//! Unsigned integers as ASCII decimal text, the only number form on the wire.

use vstd::prelude::*;

verus! {

/// ASCII code of the digit `d`.
pub open spec fn digit_byte(d: nat) -> u8 {
    (48 + d) as u8
}

/// The decimal text of `n`, without sign or leading zeros.
pub open spec fn decimal(n: nat) -> Seq<u8>
    decreases n,
{
    if n < 10 {
        seq![digit_byte(n)]
    } else {
        decimal(n / 10).push(digit_byte(n % 10))
    }
}

/// Every byte is an ASCII digit.
pub open spec fn is_digits(s: Seq<u8>) -> bool {
    forall|i: int| 0 <= i < s.len() ==> 48 <= #[trigger] s[i] <= 57
}

/// The number that a string of digits writes.
pub open spec fn digits_value(s: Seq<u8>) -> nat
    decreases s.len(),
{
    if s.len() == 0 {
        0
    } else {
        digits_value(s.drop_last()) * 10 + (s.last() - 48) as nat
    }
}

/// The digits of a number text, behind an optional plus sign.
pub open spec fn unsigned_body(s: Seq<u8>) -> Seq<u8> {
    if s.len() > 0 && s[0] == 43 {
        s.skip(1)
    } else {
        s
    }
}

/// What a number text denotes: digits, optionally behind `+`, whose value
/// does not exceed `max`.
pub open spec fn parse_bounded(s: Seq<u8>, max: nat) -> Option<nat> {
    let body = unsigned_body(s);
    if body.len() > 0 && is_digits(body) && digits_value(body) <= max {
        Some(digits_value(body))
    } else {
        None
    }
}

/// What a number text denotes as a `u64`.
pub open spec fn parse_u64(s: Seq<u8>) -> Option<u64> {
    match parse_bounded(s, u64::MAX as nat) {
        Some(v) => Some(v as u64),
        None => None,
    }
}

/// The decimal text of a number is a non-empty string of digits that
/// writes that number.
pub proof fn lemma_decimal_digits(n: nat)
    ensures
        decimal(n).len() > 0,
        is_digits(decimal(n)),
        digits_value(decimal(n)) == n,
        decimal(n)[0] != 43,
    decreases n,
{
    if n < 10 {
        let s = decimal(n);
        assert(s.drop_last() =~= Seq::<u8>::empty());
        assert(digits_value(s.drop_last()) == 0);
    } else {
        lemma_decimal_digits(n / 10);
        let s = decimal(n);
        assert(s.drop_last() =~= decimal(n / 10));
        assert(s.last() == digit_byte(n % 10));
    }
}

/// A decimal text has at most twenty digits when the number fits in 64 bits.
pub proof fn lemma_decimal_len(n: nat)
    requires
        n <= u64::MAX,
    ensures
        1 <= decimal(n).len() <= 20,
{
    reveal_with_fuel(decimal, 21);
}

/// Reading back the decimal text of a number gives that number.
pub proof fn lemma_parse_decimal(n: u64)
    ensures
        parse_u64(decimal(n as nat)) == Some(n),
{
    lemma_decimal_digits(n as nat);
}

/// A prefix of a digit string writes no more than the whole string.
pub proof fn lemma_prefix_value(s: Seq<u8>, k: int)
    requires
        is_digits(s),
        0 <= k <= s.len(),
    ensures
        digits_value(s.take(k)) <= digits_value(s),
    decreases s.len() - k,
{
    if k == s.len() {
        assert(s.take(k) =~= s);
    } else {
        lemma_prefix_value(s, k + 1);
        let t = s.take(k + 1);
        assert(t.drop_last() =~= s.take(k));
    }
}

/// Whether every byte is an ASCII digit.
pub fn all_digits(s: &[u8]) -> (r: bool)
    ensures
        r == is_digits(s@),
{
    let mut i: usize = 0;
    while i < s.len()
        invariant
            i <= s.len(),
            forall|j: int| 0 <= j < i ==> 48 <= #[trigger] s@[j] <= 57,
        decreases s.len() - i,
    {
        let b: u8 = s[i];
        if !(48 <= b && b <= 57) {
            return false;
        }
        i += 1;
    }
    true
}

/// Reads a number text whose value may not exceed `max`.
pub fn parse_decimal_bounded(s: &[u8], max: u64) -> (r: Option<u64>)
    ensures
        match r {
            Some(v) => parse_bounded(s@, max as nat) == Some(v as nat),
            None => parse_bounded(s@, max as nat).is_none(),
        },
{
    match parse_decimal(s) {
        Some(v) => if v <= max {
            Some(v)
        } else {
            None
        },
        None => None,
    }
}

/// Appends the decimal text of `n` to `out`.
pub fn push_decimal(out: &mut Vec<u8>, n: u64)
    ensures
        final(out)@ == old(out)@ + decimal(n as nat),
{
    let mut buf: [u8; 20] = [0u8; 20];
    let mut pos: usize = 19;
    let mut m: u64 = n / 10;
    buf[19] = 48 + (n % 10) as u8;
    proof {
        lemma_decimal_len(n as nat);
        assert(buf@.subrange(19, 20) =~= seq![digit_byte((n % 10) as nat)]);
        if n >= 10 {
            assert(decimal(n as nat) =~= decimal(m as nat) + buf@.subrange(19, 20));
        }
    }
    while m > 0
        invariant
            1 <= pos <= 19 || (pos == 0 && m == 0),
            pos < 20,
            m > 0 ==> decimal(n as nat) == decimal(m as nat) + buf@.subrange(pos as int, 20),
            m == 0 ==> decimal(n as nat) == buf@.subrange(pos as int, 20),
            decimal(n as nat).len() <= 20,
        decreases m,
    {
        let d: u8 = 48 + (m % 10) as u8;
        let ghost before = buf@;
        proof {
            lemma_decimal_digits(m as nat);
            assert(decimal(m as nat).len() >= 1);
            assert(decimal(n as nat).len() == decimal(m as nat).len() + (20 - pos));
        }
        pos -= 1;
        buf[pos] = d;
        proof {
            assert(buf@.subrange(pos as int, 20) =~= seq![d] + before.subrange(pos + 1, 20));
            if m >= 10 {
                assert(decimal(m as nat) =~= decimal((m / 10) as nat).push(d));
                assert(decimal(n as nat) =~= decimal((m / 10) as nat) + buf@.subrange(
                    pos as int,
                    20,
                ));
            } else {
                assert(decimal(m as nat) =~= seq![d]);
                assert(decimal(n as nat) =~= buf@.subrange(pos as int, 20));
            }
        }
        m = m / 10;
    }
    let mut i: usize = pos;
    while i < 20
        invariant
            pos <= i <= 20,
            out@ == old(out)@ + buf@.subrange(pos as int, i as int),
        decreases 20 - i,
    {
        out.push(buf[i]);
        assert(buf@.subrange(pos as int, i + 1) =~= buf@.subrange(pos as int, i as int).push(
            buf@[i as int],
        ));
        i += 1;
    }
}

/// The decimal text of `n`.
pub fn to_decimal(n: u64) -> (r: Vec<u8>)
    ensures
        r@ == decimal(n as nat),
{
    let mut out: Vec<u8> = Vec::new();
    push_decimal(&mut out, n);
    assert(Seq::<u8>::empty() + decimal(n as nat) =~= decimal(n as nat));
    out
}

/// Reads a number text: digits, optionally behind `+`. `None` for an empty
/// text, a byte that is no digit, or a value that does not fit in 64 bits.
pub fn parse_decimal(s: &[u8]) -> (r: Option<u64>)
    ensures
        r == parse_u64(s@),
{
    let start: usize = if s.len() > 0 && s[0] == 43 {
        1
    } else {
        0
    };
    let ghost body = unsigned_body(s@);
    assert(body =~= s@.skip(start as int));
    if start == s.len() {
        return None;
    }
    let mut acc: u64 = 0;
    let mut i: usize = start;
    while i < s.len()
        invariant
            start <= i <= s.len(),
            start < s.len(),
            body == unsigned_body(s@),
            body == s@.skip(start as int),
            is_digits(body.take(i - start)),
            acc == digits_value(body.take(i - start)),
        decreases s.len() - i,
    {
        let b: u8 = s[i];
        let ghost k = i - start;
        if b < 48 || b > 57 {
            assert(body[k] == b);
            assert(!is_digits(body));
            return None;
        }
        let d: u64 = (b - 48) as u64;
        proof {
            let t = body.take(k + 1);
            assert(t.drop_last() =~= body.take(k));
            assert(t.last() == b);
            assert forall|j: int| 0 <= j < t.len() implies 48 <= #[trigger] t[j] <= 57 by {
                if j < k {
                    assert(body.take(k)[j] == t[j]);
                }
            }
            assert(digits_value(t) == acc * 10 + d);
        }
        if acc > (u64::MAX - d) / 10 {
            proof {
                if is_digits(body) {
                    lemma_prefix_value(body, k + 1);
                }
            }
            return None;
        }
        acc = acc * 10 + d;
        i += 1;
    }
    assert(body.take(i - start) =~= body);
    Some(acc)
}

} // verus!
