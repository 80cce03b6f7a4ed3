//! Text helpers shared by the zone-file and DHCP configuration builders:
//! runs of spaces, byte lengths and decimal notation.

use vstd::prelude::*;

verus! {

/// `n` space characters.
pub open spec fn spaces(n: nat) -> Seq<char> {
    Seq::new(n, |i: int| ' ')
}

/// The number of bytes of the UTF-8 encoding of `s` (what `str::len` returns).
pub open spec fn byte_len(s: Seq<char>) -> nat {
    vstd::utf8::encode_utf8(s).len()
}

/// The decimal digit for `d`, which is below ten.
pub open spec fn digit(d: nat) -> char {
    ((d + 48) as u8) as char
}

/// The decimal notation of `n`, without leading zeros.
pub open spec fn decimal(n: nat) -> Seq<char>
    decreases n,
{
    if n < 10 {
        seq![digit(n)]
    } else {
        decimal(n / 10).push(digit(n % 10))
    }
}

/// The integer part of the base-ten logarithm of `n`, for `n >= 1`.
pub open spec fn log10(n: nat) -> nat
    decreases n,
{
    if n < 10 {
        0
    } else {
        1 + log10(n / 10)
    }
}

/// Ten to the power `k`.
pub open spec fn pow10(k: nat) -> nat
    decreases k,
{
    if k == 0 {
        1
    } else {
        10 * pow10((k - 1) as nat)
    }
}

/// `log10(n)` is the exponent of the largest power of ten not above `n`.
pub proof fn lemma_log10_bounds(n: nat)
    requires
        n >= 1,
    ensures
        pow10(log10(n)) <= n < pow10(log10(n) + 1),
    decreases n,
{
    if n >= 10 {
        lemma_log10_bounds(n / 10);
        let k = log10(n / 10);
        assert(pow10(k + 1) == 10 * pow10(k));
        assert(pow10(k + 2) == 10 * pow10(k + 1));
    }
}

/// The decimal notation of `n` has `log10(n) + 1` digits.
pub proof fn lemma_decimal_len(n: nat)
    ensures
        decimal(n).len() == log10(n) + 1,
    decreases n,
{
    if n >= 10 {
        lemma_decimal_len(n / 10);
    }
}

/// A string of `n` spaces.
pub fn space_run(n: usize) -> (r: String)
    ensures
        r@ == spaces(n as nat),
{
    let mut r = String::new();
    let mut i: usize = 0;
    let space = " ";
    proof {
        reveal_strlit(" ");
    }
    while i < n
        invariant
            i <= n,
            r@ == spaces(i as nat),
            space@ == seq![' '],
        decreases n - i,
    {
        r.append(space);
        i = i + 1;
        assert(r@ =~= spaces(i as nat));
    }
    r
}

/// The integer part of the base-ten logarithm of a positive `i32`.
pub fn ilog10(n: i32) -> (r: u32)
    requires
        n > 0,
    ensures
        r == log10(n as nat),
        r <= 9,
{
    proof {
        lemma_log10_i32(n);
    }
    let mut m: i32 = n;
    let mut k: u32 = 0;
    while m >= 10
        invariant
            0 < m <= n,
            log10(n as nat) == k + log10(m as nat),
            k + log10(m as nat) <= 9,
        decreases m,
    {
        m = m / 10;
        k = k + 1;
    }
    k
}

/// A positive `i32` has at most ten decimal digits.
pub proof fn lemma_log10_i32(n: i32)
    requires
        n > 0,
    ensures
        log10(n as nat) <= 9,
{
    lemma_log10_bounds(n as nat);
    if log10(n as nat) >= 10 {
        lemma_pow10_monotone(10, log10(n as nat));
        reveal_with_fuel(pow10, 11);
        assert(pow10(10) == 10000000000nat);
    }
}

proof fn lemma_pow10_monotone(j: nat, k: nat)
    requires
        j <= k,
    ensures
        pow10(j) <= pow10(k),
    decreases k,
{
    if j < k {
        lemma_pow10_monotone(j, (k - 1) as nat);
    }
}

} // verus!
