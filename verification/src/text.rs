use vstd::prelude::*;

use crate::gid::is_digit;
use crate::num::Decimal;

verus! {

/// The character for one decimal digit.
pub open spec fn digit_char(d: nat) -> char
    recommends
        d < 10,
{
    if d == 0 {
        '0'
    } else if d == 1 {
        '1'
    } else if d == 2 {
        '2'
    } else if d == 3 {
        '3'
    } else if d == 4 {
        '4'
    } else if d == 5 {
        '5'
    } else if d == 6 {
        '6'
    } else if d == 7 {
        '7'
    } else if d == 8 {
        '8'
    } else {
        '9'
    }
}

/// The decimal digits of `n`, most significant first.
pub open spec fn u64_digits(n: nat) -> Seq<char>
    decreases n,
{
    if n < 10 {
        seq![digit_char(n)]
    } else {
        u64_digits(n / 10).push(digit_char(n % 10))
    }
}

pub proof fn lemma_u64_digits_are_digits(n: nat)
    ensures
        u64_digits(n).len() >= 1,
        forall|i: int| 0 <= i < u64_digits(n).len() ==> is_digit(#[trigger] u64_digits(n)[i]),
    decreases n,
{
    if n >= 10 {
        lemma_u64_digits_are_digits(n / 10);
    }
}

pub proof fn lemma_digit_chars_ascii(s: Seq<char>)
    requires
        forall|i: int| 0 <= i < s.len() ==> is_digit(#[trigger] s[i]),
    ensures
        vstd::utf8::is_ascii_chars(s),
{
}

pub(crate) fn digit_str(d: u64) -> (r: &'static str)
    requires
        d < 10,
    ensures
        r@ == seq![digit_char(d as nat)],
{
    if d == 0 {
        proof {
            reveal_strlit("0");
            assert("0"@ =~= seq![digit_char(0)]);
        }
        "0"
    } else if d == 1 {
        proof {
            reveal_strlit("1");
            assert("1"@ =~= seq![digit_char(1)]);
        }
        "1"
    } else if d == 2 {
        proof {
            reveal_strlit("2");
            assert("2"@ =~= seq![digit_char(2)]);
        }
        "2"
    } else if d == 3 {
        proof {
            reveal_strlit("3");
            assert("3"@ =~= seq![digit_char(3)]);
        }
        "3"
    } else if d == 4 {
        proof {
            reveal_strlit("4");
            assert("4"@ =~= seq![digit_char(4)]);
        }
        "4"
    } else if d == 5 {
        proof {
            reveal_strlit("5");
            assert("5"@ =~= seq![digit_char(5)]);
        }
        "5"
    } else if d == 6 {
        proof {
            reveal_strlit("6");
            assert("6"@ =~= seq![digit_char(6)]);
        }
        "6"
    } else if d == 7 {
        proof {
            reveal_strlit("7");
            assert("7"@ =~= seq![digit_char(7)]);
        }
        "7"
    } else if d == 8 {
        proof {
            reveal_strlit("8");
            assert("8"@ =~= seq![digit_char(8)]);
        }
        "8"
    } else {
        proof {
            reveal_strlit("9");
            assert("9"@ =~= seq![digit_char(9)]);
        }
        "9"
    }
}

/// The decimal digits of `n` as a string.
pub fn digits_string(n: u64) -> (r: String)
    ensures
        r@ == u64_digits(n as nat),
    decreases n,
{
    if n < 10 {
        let mut s = String::new();
        s.append(digit_str(n));
        s
    } else {
        let mut s = digits_string(n / 10);
        s.append(digit_str(n % 10));
        proof {
            assert(u64_digits((n / 10) as nat) + seq![digit_char((n % 10) as nat)] =~= u64_digits(
                n as nat,
            ));
        }
        s
    }
}

/// Appends the decimal digits of `n`.
pub fn push_u64(out: &mut String, n: u64)
    ensures
        final(out)@ == old(out)@ + u64_digits(n as nat),
{
    let ds = digits_string(n);
    out.append(ds.as_str());
}

/// `k` zero characters.
pub open spec fn zeros(k: nat) -> Seq<char>
    decreases k,
{
    if k == 0 {
        Seq::empty()
    } else {
        zeros((k - 1) as nat).push('0')
    }
}

/// The digits of a decimal without its sign: the mantissa with the decimal
/// point inserted `scale` places from the right, zero-padded when the mantissa
/// is shorter than the fraction.
pub open spec fn dec_unsigned_chars(d: Decimal) -> Seq<char> {
    let ds = u64_digits(d.mant as nat);
    if d.scale == 0 {
        ds
    } else if ds.len() > d.scale {
        ds.take(ds.len() - d.scale) + seq!['.'] + ds.skip(ds.len() - d.scale)
    } else {
        seq!['0', '.'] + zeros((d.scale - ds.len()) as nat) + ds
    }
}

/// How a decimal is written into a message: sign, integer digits, and the
/// fraction only when there is one.
pub open spec fn dec_chars(d: Decimal) -> Seq<char> {
    if d.neg {
        seq!['-'] + dec_unsigned_chars(d)
    } else {
        dec_unsigned_chars(d)
    }
}

/// How a decimal is written as a JSON number: like [`dec_chars`], but a whole
/// number always carries a `.0` fraction.
pub open spec fn dec_json_chars(d: Decimal) -> Seq<char> {
    if d.scale == 0 {
        dec_chars(d) + seq!['.', '0']
    } else {
        dec_chars(d)
    }
}

/// Appends a decimal in message form.
pub fn push_decimal(out: &mut String, d: &Decimal)
    ensures
        final(out)@ == old(out)@ + dec_chars(*d),
{
    let ghost pre = out@;
    if d.neg {
        proof {
            reveal_strlit("-");
            assert("-"@ =~= seq!['-']);
        }
        out.append("-");
    }
    let ds = digits_string(d.mant);
    let l = ds.unicode_len();
    proof {
        lemma_u64_digits_are_digits(d.mant as nat);
        lemma_digit_chars_ascii(ds@);
    }
    if d.scale == 0 {
        out.append(ds.as_str());
    } else if l > d.scale as usize {
        let split = l - d.scale as usize;
        proof {
            reveal_strlit(".");
            assert("."@ =~= seq!['.']);
        }
        let head = ds.as_str().substring_ascii(0, split);
        out.append(head);
        out.append(".");
        let tail = ds.as_str().substring_ascii(split, l);
        out.append(tail);
        proof {
            assert(head@ =~= ds@.take(split as int));
            assert(tail@ =~= ds@.skip(split as int));
        }
    } else {
        proof {
            reveal_strlit("0.");
            assert("0."@ =~= seq!['0', '.']);
            reveal_strlit("0");
            assert("0"@ =~= seq!['0']);
        }
        out.append("0.");
        let pad = d.scale as usize - l;
        let ghost mid = out@;
        let mut k: usize = 0;
        while k < pad
            invariant
                k <= pad,
                out@ == mid + zeros(k as nat),
            decreases pad - k,
        {
            out.append("0");
            k = k + 1;
            proof {
                reveal_strlit("0");
                assert("0"@ =~= seq!['0']);
                assert(mid + zeros((k - 1) as nat) + seq!['0'] =~= mid + zeros(k as nat));
            }
        }
        out.append(ds.as_str());
    }
    proof {
        assert(out@ =~= pre + dec_chars(*d));
    }
}

/// Relies on String::push: appends the given character to the end of the
/// string.
#[verifier::external_body]
pub(crate) fn push_char(s: &mut String, c: char)
    ensures
        final(s)@ == old(s)@ + seq![c],
{
    s.push(c);
}

/// Appends a decimal in JSON number form.
pub fn push_decimal_json(out: &mut String, d: &Decimal)
    ensures
        final(out)@ == old(out)@ + dec_json_chars(*d),
{
    push_decimal(out, d);
    if d.scale == 0 {
        proof {
            reveal_strlit(".0");
            assert(".0"@ =~= seq!['.', '0']);
        }
        out.append(".0");
    }
}

} // verus!
