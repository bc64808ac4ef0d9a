use vstd::prelude::*;

use crate::errors::EvalError;
use crate::gid::{digits_val, is_digit, is_digits};

verus! {

/// A decimal number in canonical form: the value `(-1)^neg * mant / 10^scale`,
/// written without trailing fractional zeros. Canonical form makes equality of
/// values plain structural equality.
#[derive(Clone, Copy, Debug, PartialEq, Eq, Structural)]
pub struct Decimal {
    pub neg: bool,
    pub mant: u64,
    pub scale: u32,
}

impl Decimal {
    /// Canonical form: no trailing fractional zero digits, and zero is written
    /// as a non-negative integer.
    pub open spec fn wf(self) -> bool {
        &&& (self.scale > 0 ==> self.mant % 10 != 0)
        &&& (self.mant == 0 ==> !self.neg && self.scale == 0)
    }

    /// The whole number `n`.
    pub open spec fn spec_from_u64(n: u64) -> Decimal {
        Decimal { neg: false, mant: n, scale: 0 }
    }

    /// The whole number `n`.
    pub fn from_u64(n: u64) -> (r: Decimal)
        ensures
            r == Decimal::spec_from_u64(n),
            r.wf(),
    {
        Decimal { neg: false, mant: n, scale: 0 }
    }
}

/// The body of a decimal literal: the characters after an optional leading sign.
pub open spec fn dec_body(s: Seq<char>) -> Seq<char> {
    if s.len() > 0 && s[0] == '-' {
        s.drop_first()
    } else {
        s
    }
}

/// Whether the literal carries a leading minus sign.
pub open spec fn dec_neg(s: Seq<char>) -> bool {
    s.len() > 0 && s[0] == '-'
}

/// `k` is the position of the decimal point in body `b`, with at least one
/// digit on each side and nothing but digits elsewhere.
pub open spec fn dot_ok(b: Seq<char>, k: int) -> bool {
    &&& 0 < k < b.len()
    &&& b[k] == '.'
    &&& is_digits(b.take(k))
    &&& is_digits(b.skip(k + 1))
}

/// A decimal literal: an optional `-`, one or more digits, then optionally a
/// `.` followed by one or more digits.
pub open spec fn is_dec_lit(s: Seq<char>) -> bool {
    is_digits(dec_body(s)) || exists|k: int| dot_ok(dec_body(s), k)
}

/// The digits of the literal body read as one integer, the decimal point
/// removed.
pub open spec fn raw_mant(b: Seq<char>) -> nat {
    if is_digits(b) {
        digits_val(b)
    } else {
        let k = choose|k: int| dot_ok(b, k);
        digits_val(b.take(k) + b.skip(k + 1))
    }
}

/// How many digits of the literal body stand after the decimal point.
pub open spec fn raw_scale(b: Seq<char>) -> nat {
    if is_digits(b) {
        0
    } else {
        let k = choose|k: int| dot_ok(b, k);
        (b.len() - k - 1) as nat
    }
}

/// Strips trailing fractional zeros and normalizes zero itself.
pub open spec fn canon(neg: bool, m: u64, sc: u32) -> Decimal
    decreases sc,
{
    if m == 0 {
        Decimal { neg: false, mant: 0, scale: 0 }
    } else if sc > 0 && m % 10 == 0 {
        canon(neg, m / 10, (sc - 1) as u32)
    } else {
        Decimal { neg, mant: m, scale: sc }
    }
}

pub proof fn lemma_canon_wf(neg: bool, m: u64, sc: u32)
    ensures
        canon(neg, m, sc).wf(),
    decreases sc,
{
    if m != 0 && sc > 0 && m % 10 == 0 {
        lemma_canon_wf(neg, m / 10, (sc - 1) as u32);
    }
}

/// What a numeric configuration string parses to: its canonical decimal value,
/// provided the digits (the decimal point removed) fit in a `u64` mantissa.
pub open spec fn spec_parse_decimal(s: Seq<char>) -> Option<Decimal> {
    let b = dec_body(s);
    if is_dec_lit(s) && raw_mant(b) <= u64::MAX && raw_scale(b) <= u32::MAX {
        Some(canon(dec_neg(s), raw_mant(b) as u64, raw_scale(b) as u32))
    } else {
        None
    }
}

proof fn lemma_dot_unique(b: Seq<char>, k1: int, k2: int)
    requires
        dot_ok(b, k1),
        dot_ok(b, k2),
    ensures
        k1 == k2,
{
    if k1 < k2 {
        assert(b.skip(k1 + 1)[k2 - k1 - 1] == b[k2]);
    }
    if k2 < k1 {
        assert(b.skip(k2 + 1)[k1 - k2 - 1] == b[k1]);
    }
}

/// Parses a numeric configuration string into its canonical decimal value.
/// Anything that is not a plain decimal literal — or whose digits do not fit
/// in a `u64` mantissa — is an `InvalidConfiguration`.
pub fn parse_decimal(s: &str) -> (r: Result<Decimal, EvalError>)
    ensures
        match r {
            Ok(d) => spec_parse_decimal(s@) == Some(d) && d.wf(),
            Err(e) => spec_parse_decimal(s@) is None && e == EvalError::InvalidConfiguration,
        },
{
    let n = s.unicode_len();
    let neg = n > 0 && s.get_char(0) == '-';
    let start: usize = if neg {
        1
    } else {
        0
    };
    proof {
        assert(dec_body(s@) =~= s@.skip(start as int));
    }
    let mut i = start;
    let mut dot: usize = 0;
    let mut seen_dot = false;
    let mut acc: u64 = 0;
    let mut over = false;
    while i < n
        invariant
            start <= i <= n,
            n == s@.len(),
            neg == dec_neg(s@),
            start == if neg {
                1int
            } else {
                0int
            },
            seen_dot ==> start < dot && dot < i && s@[dot as int] == '.',
            forall|j: int|
                start <= j < i && !(seen_dot && j == dot) ==> is_digit(#[trigger] s@[j]),
            ({
                let raw = if seen_dot {
                    s@.subrange(start as int, dot as int) + s@.subrange(dot as int + 1, i as int)
                } else {
                    s@.subrange(start as int, i as int)
                };
                &&& (!over ==> acc == digits_val(raw))
                &&& (over <==> digits_val(raw) > u64::MAX)
            }),
        decreases n - i,
    {
        let ghost raw = if seen_dot {
            s@.subrange(start as int, dot as int) + s@.subrange(dot as int + 1, i as int)
        } else {
            s@.subrange(start as int, i as int)
        };
        let c = s.get_char(i);
        if '0' <= c && c <= '9' {
            proof {
                if seen_dot {
                    assert(s@.subrange(start as int, dot as int) + s@.subrange(
                        dot as int + 1,
                        i as int + 1,
                    ) =~= raw.push(c));
                } else {
                    assert(s@.subrange(start as int, i as int + 1) =~= raw.push(c));
                }
                crate::gid::lemma_digits_push(raw, c);
            }
            let d = (c as u32 - '0' as u32) as u64;
            if over {
                // the mantissa no longer fits; only the shape is still checked
            } else if acc < u64::MAX / 10 || (acc == u64::MAX / 10 && d <= 5) {
                acc = acc * 10 + d;
            } else {
                acc = 0;
                over = true;
            }
        } else if c == '.' && !seen_dot && i > start {
            seen_dot = true;
            dot = i;
            proof {
                assert(s@.subrange(start as int, dot as int) + s@.subrange(
                    dot as int + 1,
                    i as int + 1,
                ) =~= raw);
            }
        } else {
            proof {
                let b = dec_body(s@);
                let bi = i - start;
                assert(b[bi] == c);
                assert(!is_digit(c));
                assert(!is_digits(b));
                assert forall|k: int| !dot_ok(b, k) by {
                    if 0 < k < b.len() && b[k] == '.' {
                        if k < bi {
                            assert(b.skip(k + 1)[bi - k - 1] == b[bi]);
                            assert(!is_digits(b.skip(k + 1)));
                        } else if k == bi {
                            // then c is `.`: a second dot, or one with no digit before it
                            if seen_dot {
                                let bd = dot - start;
                                assert(b.take(k)[bd] == b[bd]);
                                assert(b[bd] == '.');
                                assert(!is_digits(b.take(k)));
                            } else {
                                // i == start, so k == 0: ruled out by 0 < k
                                assert(false);
                            }
                        } else {
                            assert(b.take(k)[bi] == b[bi]);
                            assert(!is_digits(b.take(k)));
                        }
                    }
                }
            }
            return Err(EvalError::InvalidConfiguration);
        }
        i = i + 1;
    }
    let ghost b = dec_body(s@);
    if i == start {
        // nothing after the sign
        proof {
            assert(b.len() == 0);
        }
        return Err(EvalError::InvalidConfiguration);
    }
    if seen_dot && dot + 1 == n {
        // a trailing dot with no fraction digits
        proof {
            let bd = dot - start;
            assert(b[bd] == '.');
            assert(!is_digits(b));
            assert forall|k: int| !dot_ok(b, k) by {
                if 0 < k < b.len() && b[k] == '.' {
                    if k < bd {
                        assert(b.skip(k + 1)[bd - k - 1] == b[bd]);
                        assert(!is_digits(b.skip(k + 1)));
                    } else {
                        assert(k == bd);
                        assert(b.skip(k + 1).len() == 0);
                    }
                }
            }
        }
        return Err(EvalError::InvalidConfiguration);
    }
    proof {
        if seen_dot {
            let bd = dot - start;
            assert(b[bd] == '.');
            assert(!is_digits(b));
            assert(b.take(bd) =~= s@.subrange(start as int, dot as int));
            assert(b.skip(bd + 1) =~= s@.subrange(dot as int + 1, n as int));
            assert(dot_ok(b, bd));
            let k = choose|k: int| dot_ok(b, k);
            lemma_dot_unique(b, k, bd);
        } else {
            assert(b =~= s@.subrange(start as int, i as int));
        }
    }
    if over {
        return Err(EvalError::InvalidConfiguration);
    }
    let frac_len: usize = if seen_dot {
        n - dot - 1
    } else {
        0
    };
    if frac_len > u32::MAX as usize {
        return Err(EvalError::InvalidConfiguration);
    }
    let ghost neg0 = neg;
    let ghost acc0 = acc;
    let ghost scale0: u32 = frac_len as u32;
    let mut mant = acc;
    let mut scale: u32 = frac_len as u32;
    while mant % 10 == 0 && scale > 0
        invariant
            canon(neg0, acc0, scale0) == canon(neg0, mant, scale),
        decreases scale,
    {
        mant = mant / 10;
        scale = scale - 1;
    }
    proof {
        lemma_canon_wf(neg0, acc0, scale0);
    }
    if mant == 0 {
        Ok(Decimal { neg: false, mant: 0, scale: 0 })
    } else {
        Ok(Decimal { neg, mant, scale })
    }
}

/// The value multiplied by one hundred (a major-to-minor currency unit
/// conversion), when the result still fits in a `u64` mantissa.
pub open spec fn spec_times_100(d: Decimal) -> Option<Decimal> {
    if d.scale >= 2 {
        Some(Decimal { neg: d.neg, mant: d.mant, scale: (d.scale - 2) as u32 })
    } else if d.scale == 1 {
        if d.mant * 10 <= u64::MAX {
            Some(Decimal { neg: d.neg, mant: (d.mant * 10) as u64, scale: 0 })
        } else {
            None
        }
    } else {
        if d.mant * 100 <= u64::MAX {
            Some(Decimal { neg: d.neg, mant: (d.mant * 100) as u64, scale: 0 })
        } else {
            None
        }
    }
}

/// Multiplies by one hundred; `None` when the result does not fit. Canonical
/// form is preserved.
pub fn times_100(d: &Decimal) -> (r: Option<Decimal>)
    ensures
        r == spec_times_100(*d),
        d.wf() && r is Some ==> r.unwrap().wf(),
{
    if d.scale >= 2 {
        Some(Decimal { neg: d.neg, mant: d.mant, scale: d.scale - 2 })
    } else if d.scale == 1 {
        if d.mant <= u64::MAX / 10 {
            Some(Decimal { neg: d.neg, mant: d.mant * 10, scale: 0 })
        } else {
            None
        }
    } else {
        if d.mant <= u64::MAX / 100 {
            Some(Decimal { neg: d.neg, mant: d.mant * 100, scale: 0 })
        } else {
            None
        }
    }
}

} // verus!
