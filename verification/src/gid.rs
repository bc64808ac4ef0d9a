use vstd::prelude::*;

use crate::errors::EvalError;

verus! {

/// A decimal digit.
pub open spec fn is_digit(c: char) -> bool {
    '0' <= c && c <= '9'
}

/// The numeric value of one decimal digit.
pub open spec fn digit_val(c: char) -> nat
    recommends
        is_digit(c),
{
    (c as u32 - '0' as u32) as nat
}

/// A non-empty run of decimal digits.
pub open spec fn is_digits(s: Seq<char>) -> bool {
    s.len() > 0 && forall|i: int| 0 <= i < s.len() ==> is_digit(#[trigger] s[i])
}

/// The value of a digit sequence read as a decimal integer.
pub open spec fn digits_val(s: Seq<char>) -> nat
    decreases s.len(),
{
    if s.len() == 0 {
        0
    } else {
        digits_val(s.drop_last()) * 10 + digit_val(s.last())
    }
}

/// The segment of `s` after the last `/`; all of `s` when it holds none.
pub open spec fn trailing_segment(s: Seq<char>) -> Seq<char>
    decreases s.len(),
{
    if s.len() == 0 {
        Seq::empty()
    } else if s.last() == '/' {
        Seq::empty()
    } else {
        trailing_segment(s.drop_last()).push(s.last())
    }
}

/// What a global identifier resolves to: the segment after the last path
/// separator read as a decimal integer, when it is one and fits in a `u64`.
pub open spec fn spec_resolve(s: Seq<char>) -> Option<u64> {
    let t = trailing_segment(s);
    if is_digits(t) && digits_val(t) <= u64::MAX {
        Some(digits_val(t) as u64)
    } else {
        None
    }
}

proof fn lemma_trailing_segment_push(s: Seq<char>, c: char)
    ensures
        trailing_segment(s.push(c)) == if c == '/' {
            Seq::<char>::empty()
        } else {
            trailing_segment(s).push(c)
        },
{
    assert(s.push(c).last() == c);
    assert(s.push(c).drop_last() =~= s);
}

pub(crate) proof fn lemma_digits_push(s: Seq<char>, c: char)
    ensures
        digits_val(s.push(c)) == digits_val(s) * 10 + digit_val(c),
        is_digits(s.push(c)) <==> (s.len() == 0 || is_digits(s)) && is_digit(c),
{
    assert(s.push(c).last() == c);
    assert(s.push(c).drop_last() =~= s);
    if (s.len() == 0 || is_digits(s)) && is_digit(c) {
        assert forall|i: int| 0 <= i < s.push(c).len() implies is_digit(#[trigger] s.push(c)[i]) by {
            if i < s.len() {
                assert(s.push(c)[i] == s[i]);
            }
        }
    }
    if is_digits(s.push(c)) && s.len() > 0 {
        assert forall|i: int| 0 <= i < s.len() implies is_digit(#[trigger] s[i]) by {
            assert(s[i] == s.push(c)[i]);
        }
    }
}

/// Resolves a global identifier of the form `namespace/type/numeric-id` to its
/// bare numeric identifier: the segment after the last `/` read as a decimal
/// integer. A missing or non-numeric trailing segment (or one too large for a
/// `u64`) is a `MalformedIdentifier`.
pub fn resolve(gid: &str) -> (r: Result<u64, EvalError>)
    ensures
        match r {
            Ok(n) => spec_resolve(gid@) == Some(n),
            Err(e) => spec_resolve(gid@) is None && e == EvalError::MalformedIdentifier,
        },
{
    let n = gid.unicode_len();
    let mut acc: u64 = 0;
    let mut num = false;
    let mut bad = false;
    let mut i: usize = 0;
    while i < n
        invariant
            0 <= i <= n,
            n == gid@.len(),
            ({
                let t = trailing_segment(gid@.take(i as int));
                &&& (num ==> is_digits(t) && digits_val(t) == acc)
                &&& (bad ==> t.len() > 0 && !(is_digits(t) && digits_val(t) <= u64::MAX))
                &&& (!num && !bad ==> t.len() == 0)
                &&& !(num && bad)
            }),
        decreases n - i,
    {
        let c = gid.get_char(i);
        proof {
            assert(gid@.take(i as int).push(gid@[i as int]) =~= gid@.take(i as int + 1));
            lemma_trailing_segment_push(gid@.take(i as int), gid@[i as int]);
            lemma_digits_push(trailing_segment(gid@.take(i as int)), gid@[i as int]);
        }
        if c == '/' {
            acc = 0;
            num = false;
            bad = false;
        } else if '0' <= c && c <= '9' {
            let d = (c as u32 - '0' as u32) as u64;
            if bad {
                // the segment is already spoiled; more digits do not mend it
            } else if !num {
                acc = d;
                num = true;
            } else if acc < u64::MAX / 10 || (acc == u64::MAX / 10 && d <= 5) {
                acc = acc * 10 + d;
            } else {
                acc = 0;
                num = false;
                bad = true;
            }
        } else {
            acc = 0;
            num = false;
            bad = true;
        }
        i = i + 1;
    }
    proof {
        assert(gid@.take(n as int) =~= gid@);
    }
    if num {
        Ok(acc)
    } else {
        Err(EvalError::MalformedIdentifier)
    }
}

proof fn lemma_trailing_after_slash(s: Seq<char>, t: Seq<char>)
    requires
        forall|i: int| 0 <= i < t.len() ==> #[trigger] t[i] != '/',
    ensures
        trailing_segment(s.push('/') + t) == t,
    decreases t.len(),
{
    if t.len() == 0 {
        assert(s.push('/') + t =~= s.push('/'));
        assert(trailing_segment(s.push('/')) =~= t);
    } else {
        let u = t.drop_last();
        assert(forall|i: int| 0 <= i < u.len() ==> #[trigger] u[i] != '/');
        lemma_trailing_after_slash(s, u);
        assert(s.push('/') + t =~= (s.push('/') + u).push(t.last()));
        lemma_trailing_segment_push(s.push('/') + u, t.last());
        assert(trailing_segment(s.push('/') + t) =~= t);
    }
}

/// Law: a well-formed global identifier — any prefix, a `/`, then a run of
/// decimal digits whose value fits in a `u64` — resolves to exactly that value.
pub proof fn lemma_resolve_valid_gid(prefix: Seq<char>, digits: Seq<char>)
    requires
        is_digits(digits),
        digits_val(digits) <= u64::MAX,
    ensures
        spec_resolve(prefix.push('/') + digits) == Some(digits_val(digits) as u64),
{
    assert(forall|i: int| 0 <= i < digits.len() ==> #[trigger] digits[i] != '/');
    lemma_trailing_after_slash(prefix, digits);
}

} // verus!
