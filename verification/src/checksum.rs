//! The RFC 1071 Internet checksum: a 16-bit one's-complement sum over
//! big-endian words, with carries folded back into the low 16 bits.

use vstd::prelude::*;
use vstd::arithmetic::div_mod::{
    lemma_fundamental_div_mod, lemma_mod_multiples_basic, lemma_mod_multiples_vanish,
    lemma_small_mod,
};
use crate::bytes::word16;

verus! {

/// Sum of the first `n` 16-bit big-endian words of `s`.
pub open spec fn sum_words(s: Seq<u8>, n: int) -> int
    decreases n,
{
    if n <= 0 {
        0
    } else {
        sum_words(s, n - 1) + word16(s[2 * (n - 1)], s[2 * (n - 1) + 1])
    }
}

/// Fold any carry above bit 15 back into the low 16 bits until none remains.
pub open spec fn fold16(x: int) -> int
    decreases x,
    when x >= 0
{
    if x < 0x10000 {
        x
    } else {
        proof {
            assert(x / 0x10000 + x % 0x10000 < x) by (nonlinear_arith)
                requires
                    x >= 0x10000,
            ;
        }
        fold16(x / 0x10000 + x % 0x10000)
    }
}

/// The RFC 1071 checksum of the even-length byte region `s`: the
/// one's complement of the folded word sum.
pub open spec fn checksum_spec(s: Seq<u8>) -> int
    recommends
        s.len() % 2 == 0,
{
    0xFFFF - fold16(sum_words(s, s.len() as int / 2))
}

pub proof fn lemma_sum_words_bound(s: Seq<u8>, n: int)
    requires
        n >= 0,
    ensures
        0 <= sum_words(s, n) <= n * 0xFFFF,
    decreases n,
{
    if n > 0 {
        lemma_sum_words_bound(s, n - 1);
        assert((n - 1) * 0xFFFF + 0xFFFF == n * 0xFFFF) by (nonlinear_arith);
    }
}

/// The folded sum is a 16-bit value, no larger than its input, congruent
/// to it modulo 0xFFFF, and zero only when the input is zero.
pub proof fn lemma_fold16_props(x: int)
    requires
        x >= 0,
    ensures
        0 <= fold16(x) < 0x10000,
        fold16(x) <= x,
        fold16(x) % 0xFFFF == x % 0xFFFF,
        x > 0 ==> fold16(x) > 0,
    decreases x,
{
    if x < 0x10000 {
    } else {
        assert(x / 0x10000 >= 1 && 0 <= x % 0x10000 < 0x10000) by (nonlinear_arith)
            requires
                x >= 0x10000,
        ;
        assert(x / 0x10000 + x % 0x10000 < x) by (nonlinear_arith)
            requires
                x >= 0x10000,
        ;
        let q = x / 0x10000;
        let r = x % 0x10000;
        let y = q + r;
        lemma_fold16_props(y);
        lemma_fundamental_div_mod(x, 0x10000);
        assert(x == 0xFFFF * q + y);
        lemma_mod_multiples_vanish(q, y, 0xFFFF);
    }
}

/// Words other than word `j` are untouched by the update, so the sum
/// changes by exactly the difference at word `j`.
proof fn lemma_sum_words_update2(s: Seq<u8>, n: int, j: int, hi: u8, lo: u8)
    requires
        0 <= j < n,
        2 * n <= s.len(),
    ensures
        sum_words(s.update(2 * j, hi).update(2 * j + 1, lo), n) == sum_words(s, n) - word16(
            s[2 * j],
            s[2 * j + 1],
        ) + word16(hi, lo),
    decreases n,
{
    let t = s.update(2 * j, hi).update(2 * j + 1, lo);
    if j == n - 1 {
        lemma_sum_words_agree(s, t, n - 1);
    } else {
        lemma_sum_words_update2(s, n - 1, j, hi, lo);
    }
}

/// Two byte sequences that agree on the first `2 * n` bytes have the
/// same sum over their first `n` words.
proof fn lemma_sum_words_agree(s: Seq<u8>, t: Seq<u8>, n: int)
    requires
        forall|i: int| 0 <= i < 2 * n ==> s[i] == t[i],
    ensures
        sum_words(s, n) == sum_words(t, n),
    decreases n,
{
    if n > 0 {
        lemma_sum_words_agree(s, t, n - 1);
    }
}

/// The checksum verification law: writing the computed checksum into a
/// zeroed checksum word (word `j`) makes the folded sum of the whole
/// region come out as 0xFFFF.
pub proof fn lemma_checksum_verifies(s: Seq<u8>, j: int)
    requires
        s.len() % 2 == 0,
        s.len() <= 0x10000,
        0 <= j,
        2 * j + 1 < s.len(),
        s[2 * j] == 0,
        s[2 * j + 1] == 0,
    ensures
        ({
            let c = checksum_spec(s);
            let t = s.update(2 * j, (c / 256) as u8).update(2 * j + 1, (c % 256) as u8);
            fold16(sum_words(t, t.len() as int / 2)) == 0xFFFF
        }),
{
    let n = s.len() as int / 2;
    let ssum = sum_words(s, n);
    lemma_sum_words_bound(s, n);
    assert(n * 0xFFFF <= 0x8000 * 0xFFFF) by (nonlinear_arith)
        requires
            n <= 0x8000,
    ;
    lemma_fold16_props(ssum);
    let f = fold16(ssum);
    let c = checksum_spec(s);
    assert(c == 0xFFFF - f);
    let hi = (c / 256) as u8;
    let lo = (c % 256) as u8;
    lemma_fundamental_div_mod(c, 256);
    assert(0 <= c / 256 < 256 && 0 <= c % 256 < 256) by (nonlinear_arith)
        requires
            0 <= c <= 0xFFFF,
    ;
    assert(word16(hi, lo) == c);
    let t = s.update(2 * j, hi).update(2 * j + 1, lo);
    lemma_sum_words_update2(s, n, j, hi, lo);
    assert(t.len() == s.len());
    let tsum = sum_words(t, n);
    assert(tsum == ssum + c);

    // ssum - f is a multiple of 0xFFFF, so tsum = (ssum - f) + 0xFFFF is one too.
    lemma_fundamental_div_mod(ssum, 0xFFFF);
    lemma_fundamental_div_mod(f, 0xFFFF);
    let k = ssum / 0xFFFF - f / 0xFFFF;
    assert(ssum - f == 0xFFFF * k);
    assert(k >= 0) by (nonlinear_arith)
        requires
            0xFFFF * k >= 0,
    ;
    assert(tsum == 0xFFFF * (k + 1));
    assert(tsum >= 0xFFFF) by (nonlinear_arith)
        requires
            k >= 0,
            tsum == 0xFFFF * (k + 1),
    ;
    lemma_fold16_props(tsum);
    assert((0xFFFF * (k + 1)) % 0xFFFF == 0) by {
        lemma_mod_multiples_basic(k + 1, 0xFFFF);
    }
    let g = fold16(tsum);
    assert(g % 0xFFFF == 0 && 0 < g < 0x10000);
    if g < 0xFFFF {
        lemma_small_mod(g as nat, 0xFFFF as nat);
    }
    assert(g == 0xFFFF);
}

/// Compute the RFC 1071 checksum over the first `len` bytes of `data`:
/// sum 16-bit big-endian words into a 32-bit accumulator, fold carries,
/// and return the one's complement of the result.
pub fn checksum(data: &[u8], len: u16) -> (r: u16)
    requires
        len % 2 == 0,
        len as int <= data@.len(),
    ensures
        r == checksum_spec(data@.subrange(0, len as int)),
{
    let ghost region = data@.subrange(0, len as int);
    let n: usize = len as usize;
    let mut sum: u32 = 0;
    let mut i: usize = 0;
    while i < n
        invariant
            i <= n,
            i % 2 == 0,
            n % 2 == 0,
            n == len,
            n <= data@.len(),
            region == data@.subrange(0, n as int),
            sum == sum_words(region, i as int / 2),
            sum <= (i as int / 2) * 0xFFFF,
        decreases n - i,
    {
        let word: u32 = (data[i] as u32) * 256 + (data[i + 1] as u32);
        proof {
            assert((i as int / 2) * 0xFFFF + 0xFFFF == (i as int / 2 + 1) * 0xFFFF)
                by (nonlinear_arith);
            assert((i as int / 2 + 1) * 0xFFFF <= 0x8000 * 0xFFFF) by (nonlinear_arith)
                requires
                    i as int / 2 + 1 <= 0x8000,
            ;
            assert(region[i as int] == data@[i as int]);
            assert(region[i as int + 1] == data@[i as int + 1]);
            assert((i + 2) as int / 2 == i as int / 2 + 1);
        }
        sum = sum + word;
        i = i + 2;
    }
    proof {
        lemma_sum_words_bound(region, n as int / 2);
    }
    while sum >= 0x10000
        invariant
            fold16(sum as int) == fold16(sum_words(region, n as int / 2)),
            sum_words(region, n as int / 2) >= 0,
        decreases sum,
    {
        let q = sum / 0x10000;
        let r = sum % 0x10000;
        proof {
            assert(q + r < sum) by (nonlinear_arith)
                requires
                    sum >= 0x10000,
                    q == sum / 0x10000,
                    r == sum % 0x10000,
            ;
        }
        sum = q + r;
    }
    0xFFFFu16 - (sum as u16)
}

} // verus!
