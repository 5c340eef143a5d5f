//! The text form of a decimal real number as `str::parse` reads it: the
//! library checks such arguments and hands the text on unchanged.

use vstd::prelude::*;

use crate::text::{all_digits, is_digit};

verus! {

/// `s` without one leading sign character.
pub open spec fn unsigned_part(s: Seq<char>) -> Seq<char> {
    if s.len() > 0 && (s[0] == '+' || s[0] == '-') {
        s.drop_first()
    } else {
        s
    }
}

/// `s` spells the word whose lower and upper case letters are `lower` and
/// `upper`, letter by letter in either case.
pub open spec fn matches_ci(s: Seq<char>, lower: Seq<char>, upper: Seq<char>) -> bool {
    &&& s.len() == lower.len()
    &&& lower.len() == upper.len()
    &&& forall|i: int| 0 <= i < s.len() ==> (#[trigger] s[i] == lower[i] || s[i] == upper[i])
}

/// Digits with at most one '.', and at least one digit.
pub open spec fn is_mantissa(m: Seq<char>) -> bool {
    &&& forall|i: int| 0 <= i < m.len() ==> is_digit(#[trigger] m[i]) || m[i] == '.'
    &&& forall|i: int, j: int| 0 <= i < j < m.len() ==> !(#[trigger] m[i] == '.' && #[trigger] m[j] == '.')
    &&& exists|i: int| 0 <= i < m.len() && is_digit(#[trigger] m[i])
}

/// 'e' or 'E', an optional sign, then at least one digit.
pub open spec fn is_exponent(x: Seq<char>) -> bool {
    &&& x.len() >= 2
    &&& (x[0] == 'e' || x[0] == 'E')
    &&& unsigned_part(x.drop_first()).len() > 0
    &&& all_digits(unsigned_part(x.drop_first()))
}

/// A mantissa, optionally followed by an exponent.
pub open spec fn is_number_text(s: Seq<char>) -> bool {
    ||| is_mantissa(s)
    ||| exists|k: int| 0 <= k < s.len() && is_mantissa(s.take(k)) && #[trigger] is_exponent(s.skip(k))
}

/// What `str::parse` accepts for a floating point number: an optional sign,
/// then `inf`, `infinity` or `nan` in any letter case, or a decimal number
/// with an optional exponent.
pub open spec fn is_real_text(s: Seq<char>) -> bool {
    let b = unsigned_part(s);
    ||| matches_ci(b, seq!['i', 'n', 'f'], seq!['I', 'N', 'F'])
    ||| matches_ci(
        b,
        seq!['i', 'n', 'f', 'i', 'n', 'i', 't', 'y'],
        seq!['I', 'N', 'F', 'I', 'N', 'I', 'T', 'Y'],
    )
    ||| matches_ci(b, seq!['n', 'a', 'n'], seq!['N', 'A', 'N'])
    ||| is_number_text(b)
}

fn word_ci(s: &Vec<char>, lo: usize, lower: &Vec<char>, upper: &Vec<char>) -> (r: bool)
    requires
        lo <= s@.len(),
    ensures
        r == matches_ci(s@.skip(lo as int), lower@, upper@),
{
    let ghost b = s@.skip(lo as int);
    if s.len() - lo != lower.len() || lower.len() != upper.len() {
        return false;
    }
    let n = s.len();
    let mut i: usize = 0;
    while i < lower.len()
        invariant
            n == s@.len(),
            lo <= s@.len(),
            b == s@.skip(lo as int),
            b.len() == lower@.len(),
            s@.len() - lo == lower@.len(),
            lower@.len() == upper@.len(),
            i <= lower@.len(),
            forall|k: int| 0 <= k < i ==> (#[trigger] b[k] == lower@[k] || b[k] == upper@[k]),
        decreases lower@.len() - i,
    {
        let c = s[lo + i];
        assert(b[i as int] == c);
        if c != lower[i] && c != upper[i] {
            return false;
        }
        i = i + 1;
    }
    true
}

fn mantissa_ok(s: &Vec<char>, lo: usize, hi: usize) -> (r: bool)
    requires
        lo <= hi <= s@.len(),
    ensures
        r == is_mantissa(s@.subrange(lo as int, hi as int)),
{
    let ghost m = s@.subrange(lo as int, hi as int);
    let mut dot = false;
    let mut digit = false;
    let mut i: usize = lo;
    while i < hi
        invariant
            lo <= i <= hi <= s@.len(),
            m == s@.subrange(lo as int, hi as int),
            forall|k: int| 0 <= k < i - lo ==> is_digit(#[trigger] m[k]) || m[k] == '.',
            forall|k: int, l: int| 0 <= k < l < i - lo ==> !(#[trigger] m[k] == '.' && #[trigger] m[l] == '.'),
            !dot ==> forall|k: int| 0 <= k < i - lo ==> #[trigger] m[k] != '.',
            dot ==> exists|k: int| 0 <= k < i - lo && #[trigger] m[k] == '.',
            digit <==> exists|k: int| 0 <= k < i - lo && is_digit(#[trigger] m[k]),
        decreases hi - i,
    {
        let c = s[i];
        assert(m[i - lo] == c);
        if c == '.' {
            if dot {
                return false;
            }
            dot = true;
        } else if '0' <= c && c <= '9' {
            digit = true;
        } else {
            return false;
        }
        i = i + 1;
    }
    digit
}

fn exponent_ok(s: &Vec<char>, lo: usize) -> (r: bool)
    requires
        lo <= s@.len(),
    ensures
        r == is_exponent(s@.skip(lo as int)),
{
    let ghost x = s@.skip(lo as int);
    if s.len() - lo < 2 || !(s[lo] == 'e' || s[lo] == 'E') {
        return false;
    }
    let start: usize = if s[lo + 1] == '+' || s[lo + 1] == '-' { lo + 2 } else { lo + 1 };
    proof {
        assert(x.drop_first() =~= s@.skip(lo + 1));
        if start == lo + 2 {
            assert(unsigned_part(x.drop_first()) =~= s@.skip(start as int));
        } else {
            assert(unsigned_part(x.drop_first()) =~= s@.skip(start as int));
        }
    }
    if start >= s.len() {
        return false;
    }
    assert(x[0] == s@[lo as int]);
    assert(is_exponent(x) == all_digits(s@.skip(start as int)));
    let mut i: usize = start;
    while i < s.len()
        invariant
            start <= i <= s@.len(),
            x == s@.skip(lo as int),
            is_exponent(x) == all_digits(s@.skip(start as int)),
            forall|k: int| start <= k < i ==> is_digit(#[trigger] s@[k]),
        decreases s@.len() - i,
    {
        if !('0' <= s[i] && s[i] <= '9') {
            assert(s@.skip(start as int)[i - start] == s@[i as int]);
            assert(!is_digit(s@.skip(start as int)[i - start]));
            return false;
        }
        i = i + 1;
    }
    assert forall|k: int| 0 <= k < s@.skip(start as int).len() implies is_digit(
        #[trigger] s@.skip(start as int)[k],
    ) by {
        assert(s@.skip(start as int)[k] == s@[start + k]);
    }
    true
}

fn number_ok(s: &Vec<char>, lo: usize) -> (r: bool)
    requires
        lo <= s@.len(),
    ensures
        r == is_number_text(s@.skip(lo as int)),
{
    let ghost b = s@.skip(lo as int);
    let mut e: usize = lo;
    while e < s.len() && s[e] != 'e' && s[e] != 'E'
        invariant
            lo <= e <= s@.len(),
            forall|k: int| lo <= k < e ==> s@[k] != 'e' && s@[k] != 'E',
        decreases s@.len() - e,
    {
        e = e + 1;
    }
    if e == s.len() {
        let r = mantissa_ok(s, lo, e);
        proof {
            assert(s@.subrange(lo as int, e as int) =~= b);
            if !r {
                assert forall|k: int| 0 <= k < b.len() && is_mantissa(b.take(k)) implies !is_exponent(
                    #[trigger] b.skip(k),
                ) by {
                    assert(b.skip(k)[0] == s@[lo + k]);
                }
            }
        }
        r
    } else {
        let m = mantissa_ok(s, lo, e);
        let x = exponent_ok(s, e);
        proof {
            let k0 = (e - lo) as int;
            assert(s@.subrange(lo as int, e as int) =~= b.take(k0));
            assert(s@.skip(e as int) =~= b.skip(k0));
            assert(b[k0] == s@[e as int]);
            assert(!is_mantissa(b)) by {
                assert(!(is_digit(b[k0]) || b[k0] == '.'));
            }
            assert forall|k: int| 0 <= k < b.len() && is_mantissa(b.take(k)) && is_exponent(
                #[trigger] b.skip(k),
            ) implies k == k0 by {
                assert(b.skip(k)[0] == b[k]);
                if k < k0 {
                    assert(b[k] == s@[lo + k]);
                } else if k > k0 {
                    assert(b.take(k)[k0] == b[k0]);
                }
            }
        }
        m && x
    }
}

/// Whether `s` is a number as `str::parse::<f32>()` and `str::parse::<f64>()`
/// accept it (see `is_real_text`).
pub fn real_text_ok(s: &Vec<char>) -> (r: bool)
    ensures
        r == is_real_text(s@),
{
    let lo: usize = if s.len() > 0 && (s[0] == '+' || s[0] == '-') { 1 } else { 0 };
    proof {
        if lo == 1 {
            assert(unsigned_part(s@) =~= s@.skip(1));
        } else {
            assert(unsigned_part(s@) =~= s@.skip(0));
        }
    }
    let inf_l = vec!['i', 'n', 'f'];
    let inf_u = vec!['I', 'N', 'F'];
    let infinity_l = vec!['i', 'n', 'f', 'i', 'n', 'i', 't', 'y'];
    let infinity_u = vec!['I', 'N', 'F', 'I', 'N', 'I', 'T', 'Y'];
    let nan_l = vec!['n', 'a', 'n'];
    let nan_u = vec!['N', 'A', 'N'];
    assert(inf_l@ =~= seq!['i', 'n', 'f']);
    assert(inf_u@ =~= seq!['I', 'N', 'F']);
    assert(infinity_l@ =~= seq!['i', 'n', 'f', 'i', 'n', 'i', 't', 'y']);
    assert(infinity_u@ =~= seq!['I', 'N', 'F', 'I', 'N', 'I', 'T', 'Y']);
    assert(nan_l@ =~= seq!['n', 'a', 'n']);
    assert(nan_u@ =~= seq!['N', 'A', 'N']);
    word_ci(s, lo, &inf_l, &inf_u) || word_ci(s, lo, &infinity_l, &infinity_u) || word_ci(
        s,
        lo,
        &nan_l,
        &nan_u,
    ) || number_ok(s, lo)
}

} // verus!
