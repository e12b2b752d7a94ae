//! Parsing of unsigned decimal byte strings (`"100"`, `"110.25"`) into
//! fixed-point integers scaled by [`crate::event::PRICE_SCALE`]. Fraction
//! digits beyond the scale are truncated; a value that does not fit in
//! `u64` is rejected.

use vstd::prelude::*;

verus! {

/// ASCII code of `'0'`.
pub const ASCII_ZERO: u8 = 48;

/// ASCII code of `'.'`.
pub const ASCII_DOT: u8 = 46;

/// Number of fraction digits the fixed-point representation keeps.
pub const FRAC_DIGITS: usize = 4;

pub open spec fn is_ascii_digit(b: u8) -> bool {
    48 <= b && b <= 57
}

pub open spec fn all_digits(s: Seq<u8>) -> bool {
    forall|i: int| 0 <= i < s.len() ==> is_ascii_digit(#[trigger] s[i])
}

/// Numeric value of a digit string, most significant digit first.
pub open spec fn digits_val(s: Seq<u8>) -> int
    decreases s.len(),
{
    if s.len() == 0 {
        0
    } else {
        digits_val(s.drop_last()) * 10 + (s.last() - 48)
    }
}

/// Index of the first `'.'`, or `s.len()` if there is none.
pub open spec fn dot_index(s: Seq<u8>) -> int
    decreases s.len(),
{
    if s.len() == 0 {
        0
    } else if s[0] == 46 {
        0
    } else {
        1 + dot_index(s.skip(1))
    }
}

/// The digits before the first `'.'` (the whole string if there is none).
pub open spec fn int_part(s: Seq<u8>) -> Seq<u8> {
    s.take(dot_index(s))
}

/// The digits after the first `'.'`, empty if there is none.
pub open spec fn frac_part(s: Seq<u8>) -> Seq<u8> {
    if dot_index(s) < s.len() {
        s.skip(dot_index(s) + 1)
    } else {
        Seq::empty()
    }
}

/// A well-formed unsigned decimal: at most one `'.'`, every other byte a
/// digit, and at least one digit somewhere.
pub open spec fn valid_decimal(s: Seq<u8>) -> bool {
    &&& all_digits(int_part(s))
    &&& all_digits(frac_part(s))
    &&& int_part(s).len() + frac_part(s).len() >= 1
}

/// The fraction digits normalized to exactly [`FRAC_DIGITS`] places:
/// truncated if longer, padded with `'0'` if shorter.
pub open spec fn norm_frac(f: Seq<u8>) -> Seq<u8> {
    if f.len() >= 4 {
        f.take(4)
    } else {
        f + Seq::new((4 - f.len()) as nat, |i: int| 48u8)
    }
}

/// The exact mathematical value of a well-formed decimal string, in
/// fixed-point units (four fraction digits).
pub open spec fn decimal_value(s: Seq<u8>) -> int {
    digits_val(int_part(s)) * 10_000 + digits_val(norm_frac(frac_part(s)))
}

/// What parsing returns: the fixed-point value for a well-formed decimal
/// that fits in `u64`, and nothing otherwise.
pub open spec fn spec_parse_fixed(s: Seq<u8>) -> Option<u64> {
    if valid_decimal(s) && decimal_value(s) <= u64::MAX {
        Some(decimal_value(s) as u64)
    } else {
        None
    }
}

proof fn lemma_digits_val_nonneg(s: Seq<u8>)
    requires
        all_digits(s),
    ensures
        digits_val(s) >= 0,
    decreases s.len(),
{
    if s.len() > 0 {
        assert(all_digits(s.drop_last()));
        lemma_digits_val_nonneg(s.drop_last());
    }
}

proof fn lemma_digits_val_take_succ(s: Seq<u8>, i: int)
    requires
        0 <= i < s.len(),
    ensures
        digits_val(s.take(i + 1)) == digits_val(s.take(i)) * 10 + (s[i] - 48),
{
    assert(s.take(i + 1).drop_last() =~= s.take(i));
    assert(s.take(i + 1).last() == s[i]);
}

proof fn lemma_digits_val_take_mono(s: Seq<u8>, i: int, j: int)
    requires
        all_digits(s),
        0 <= i <= j <= s.len(),
    ensures
        digits_val(s.take(i)) <= digits_val(s.take(j)),
    decreases j - i,
{
    if i < j {
        lemma_digits_val_take_mono(s, i, j - 1);
        lemma_digits_val_take_succ(s, j - 1);
        assert(all_digits(s.take(j - 1)));
        lemma_digits_val_nonneg(s.take(j - 1));
    }
}

proof fn lemma_dot_index_at(s: Seq<u8>, k: int)
    requires
        0 <= k <= s.len(),
        forall|j: int| 0 <= j < k ==> #[trigger] s[j] != 46,
        k < s.len() ==> s[k] == 46,
    ensures
        dot_index(s) == k,
    decreases k,
{
    if k == 0 {
    } else {
        assert(s[0] != 46);
        lemma_dot_index_at(s.skip(1), k - 1);
    }
}

/// Parses an unsigned decimal byte string into fixed-point units.
///
/// Returns exactly what [`spec_parse_fixed`] names: `Some` for a
/// well-formed decimal whose scaled value fits in `u64`, `None` otherwise.
pub fn parse_fixed_point(b: &[u8]) -> (r: Option<u64>)
    ensures
        r == spec_parse_fixed(b@),
{
    let n = b.len();
    // Find the first dot.
    let mut di: usize = 0;
    while di < n && b[di] != ASCII_DOT
        invariant
            0 <= di <= n,
            n == b@.len(),
            forall|j: int| 0 <= j < di ==> #[trigger] b@[j] != 46,
        decreases n - di,
    {
        di += 1;
    }
    proof {
        lemma_dot_index_at(b@, di as int);
    }
    let ghost ip = int_part(b@);
    let ghost fp = frac_part(b@);
    assert(ip =~= b@.take(di as int));
    assert(fp =~= if di < n {
        b@.skip(di as int + 1)
    } else {
        Seq::<u8>::empty()
    });

    if di == 0 && di == n {
        // Empty input: no digits at all.
        return None;
    }
    if di == 0 && n == 1 {
        // A lone dot: no digits at all.
        assert(ip.len() + fp.len() == 0);
        return None;
    }

    // Accumulate the integer part.
    let mut acc: u64 = 0;
    let mut i: usize = 0;
    while i < di
        invariant
            0 <= i <= di <= n,
            n == b@.len(),
            ip =~= b@.take(di as int),
            fp == frac_part(b@),
            di as int == dot_index(b@),
            all_digits(b@.take(i as int)),
            acc == digits_val(b@.take(i as int)),
        decreases di - i,
    {
        let c = b[i];
        if c < ASCII_ZERO || c > 57 {
            // A non-digit in the integer part: not a well-formed decimal.
            assert(!is_ascii_digit(ip[i as int]));
            return None;
        }
        let d = c - ASCII_ZERO;
        proof {
            lemma_digits_val_take_succ(b@, i as int);
        }
        if acc > (u64::MAX - d as u64) / 10 {
            // The integer part alone no longer fits in u64.
            proof {
                let q = (u64::MAX - d) as int / 10;
                assert(acc * 10 + d > u64::MAX) by (nonlinear_arith)
                    requires
                        acc > q,
                        q == (u64::MAX - d) as int / 10,
                        0 <= d <= 9,
                        acc >= 0,
                ;
                assert(digits_val(b@.take(i + 1)) > u64::MAX);
                if valid_decimal(b@) {
                    assert(all_digits(ip));
                    assert(ip.take(i + 1) =~= b@.take(i + 1));
                    assert(ip.take(di as int) =~= ip);
                    lemma_digits_val_take_mono(ip, i + 1, di as int);
                    assert(digits_val(ip) > u64::MAX);
                    lemma_digits_val_nonneg(ip);
                    assert(digits_val(ip) * 10_000 >= digits_val(ip)) by (nonlinear_arith)
                        requires
                            digits_val(ip) >= 0,
                    ;
                    assert(all_digits(norm_frac(fp)));
                    lemma_digits_val_nonneg(norm_frac(fp));
                    assert(decimal_value(b@) > u64::MAX);
                }
            }
            return None;
        }
        acc = acc * 10 + d as u64;
        i += 1;
    }
    assert(acc == digits_val(ip));

    // Validate and accumulate the fraction part, normalized to four digits.
    let ghost nf = norm_frac(fp);
    let flen: usize = if di < n { n - di - 1 } else { 0 };
    assert(flen == fp.len());
    let mut fv: u64 = 0;
    let mut j: usize = 0;
    while j < FRAC_DIGITS
        invariant
            0 <= j <= 4,
            n == b@.len(),
            di as int == dot_index(b@),
            di <= n,
            flen == fp.len(),
            fp == frac_part(b@),
            nf == norm_frac(fp),
            di < n ==> flen == n - di - 1,
            all_digits(fp.take(if j < flen { j as int } else { flen as int })),
            fv == digits_val(nf.take(if (j as int) <= 4 { j as int } else { 4 })),
            j <= 0 ==> fv <= 0,
            j <= 1 ==> fv <= 9,
            j <= 2 ==> fv <= 99,
            j <= 3 ==> fv <= 999,
            fv <= 9999,
        decreases FRAC_DIGITS - j,
    {
        let c: u8 = if j < flen { b[di + 1 + j] } else { ASCII_ZERO };
        proof {
            if j < flen {
                assert(fp[j as int] == b@[di as int + 1 + j]);
                if j < 4 {
                    assert(nf[j as int] == fp[j as int]);
                }
            } else {
                assert(nf[j as int] == 48u8);
            }
        }
        if c < ASCII_ZERO || c > 57 {
            // A non-digit in the fraction part: not a well-formed decimal.
            assert(j < flen && !is_ascii_digit(fp[j as int]));
            return None;
        }
        let d = c - ASCII_ZERO;
        proof {
            lemma_digits_val_take_succ(nf, j as int);
        }
        fv = fv * 10 + d as u64;
        proof {
            if j < flen {
                assert(fp.take(j + 1).drop_last() =~= fp.take(j as int));
                assert(all_digits(fp.take(j + 1)));
            }
        }
        j += 1;
    }
    assert(nf.take(4) =~= nf);
    assert(fv == digits_val(nf));

    // The remaining fraction digits are truncated, but they must still be
    // digits for the string to be well-formed.
    let mut k: usize = if flen > FRAC_DIGITS { FRAC_DIGITS } else { flen };
    while k < flen
        invariant
            0 <= k <= flen,
            n == b@.len(),
            di as int == dot_index(b@),
            di < n ==> flen == n - di - 1,
            flen == fp.len(),
            flen > 0 ==> di < n,
            fp == frac_part(b@),
            all_digits(fp.take(k as int)),
        decreases flen - k,
    {
        let c = b[di + 1 + k];
        assert(fp[k as int] == b@[di as int + 1 + k]);
        if c < ASCII_ZERO || c > 57 {
            assert(!is_ascii_digit(fp[k as int]));
            return None;
        }
        proof {
            assert(fp.take(k + 1).drop_last() =~= fp.take(k as int));
            assert(all_digits(fp.take(k + 1)));
        }
        k += 1;
    }
    assert(fp.take(flen as int) =~= fp);
    assert(all_digits(fp));
    assert(all_digits(ip));
    assert(valid_decimal(b@));

    // Combine: acc * 10_000 + fv, rejecting overflow.
    if acc > (u64::MAX - fv) / 10_000 {
        proof {
            let q = (u64::MAX - fv) as int / 10_000;
            assert(acc * 10_000 + fv > u64::MAX) by (nonlinear_arith)
                requires
                    acc > q,
                    q == (u64::MAX - fv) as int / 10_000,
                    0 <= fv <= 9999,
                    acc >= 0,
            ;
        }
        return None;
    }
    proof {
        let q = (u64::MAX - fv) as int / 10_000;
        assert(acc * 10_000 + fv <= u64::MAX) by (nonlinear_arith)
            requires
                acc <= q,
                q == (u64::MAX - fv) as int / 10_000,
                0 <= fv <= 9999,
                acc >= 0,
        ;
    }
    Some(acc * 10_000 + fv)
}

} // verus!
