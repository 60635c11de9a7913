//! Bounded text: cutting UTF-8 at a whole character, and decimal digits.
use vstd::prelude::*;

verus! {

/// A UTF-8 continuation byte (`0b10xx_xxxx`), which never starts a character.
pub open spec fn is_continuation(b: u8) -> bool {
    b & 0xC0 == 0x80
}

/// `k` is a character boundary of `s`.
pub open spec fn is_boundary(s: Seq<u8>, k: int) -> bool {
    k == s.len() || (0 <= k < s.len() && !is_continuation(s[k]))
}

/// The longest prefix of `s` of at most `cap` bytes that ends on a character
/// boundary: what pushing the characters of `s` one by one into a string of
/// capacity `cap` keeps, stopping at the first that does not fit.
pub open spec fn spec_utf8_prefix_len(s: Seq<u8>, cap: nat) -> nat
    decreases cap,
{
    if s.len() <= cap {
        s.len()
    } else if cap == 0 || !is_continuation(s[cap as int]) {
        cap
    } else {
        spec_utf8_prefix_len(s, (cap - 1) as nat)
    }
}

/// Copy `s` cut at the last whole character that fits in `cap` bytes.
pub fn utf8_prefix(s: &[u8], cap: usize) -> (r: Vec<u8>)
    ensures
        r@ == s@.take(spec_utf8_prefix_len(s@, cap as nat) as int),
{
    let n = s.len();
    let mut k: usize = if n <= cap { n } else { cap };
    if n > cap {
        while k > 0 && s[k] & 0xC0 == 0x80
            invariant
                n == s@.len(),
                cap < n,
                k <= cap,
                spec_utf8_prefix_len(s@, cap as nat) == spec_utf8_prefix_len(s@, k as nat),
            decreases k,
        {
            k = k - 1;
        }
    }
    let mut out: Vec<u8> = Vec::new();
    let mut i: usize = 0;
    while i < k
        invariant
            k <= n == s@.len(),
            k == spec_utf8_prefix_len(s@, cap as nat),
            i <= k,
            out@ == s@.take(i as int),
        decreases k - i,
    {
        out.push(s[i]);
        assert(out@ =~= s@.take(i + 1));
        i = i + 1;
    }
    out
}

/// The cut never exceeds the capacity, keeps everything that fits, and
/// ends on a character boundary.
pub proof fn lemma_utf8_prefix(s: Seq<u8>, cap: nat)
    ensures
        spec_utf8_prefix_len(s, cap) <= cap,
        spec_utf8_prefix_len(s, cap) <= s.len(),
        s.len() <= cap ==> spec_utf8_prefix_len(s, cap) == s.len(),
        is_boundary(s, spec_utf8_prefix_len(s, cap) as int) || spec_utf8_prefix_len(s, cap) == 0,
    decreases cap,
{
    if s.len() > cap && cap > 0 && is_continuation(s[cap as int]) {
        lemma_utf8_prefix(s, (cap - 1) as nat);
    }
}

/// ASCII decimal digits of `n`, most significant first.
pub open spec fn decimal(n: nat) -> Seq<u8>
    decreases n,
{
    if n < 10 {
        seq![(0x30 + n) as u8]
    } else {
        decimal(n / 10).push((0x30 + n % 10) as u8)
    }
}

/// The decimal digits of `n`.
pub fn decimal_digits(n: u16) -> (r: Vec<u8>)
    ensures
        r@ == decimal(n as nat),
    decreases n,
{
    if n < 10 {
        let mut v: Vec<u8> = Vec::new();
        v.push(0x30 + n as u8);
        assert(v@ =~= decimal(n as nat));
        v
    } else {
        let mut v = decimal_digits(n / 10);
        v.push(0x30 + (n % 10) as u8);
        v
    }
}

} // verus!
