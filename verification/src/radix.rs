//! Unsigned integers written in a base from 2 to 36, as `from_str_radix`
//! reads them.

use vstd::prelude::*;

verus! {

/// The value of the digit `c` in base `radix` (`char::to_digit`): `0-9`,
/// then `a-z` or `A-Z` for 10 to 35, below `radix`.
pub open spec fn digit_value(c: char, radix: nat) -> Option<nat> {
    let v: int = if '0' <= c && c <= '9' {
        (c as int) - ('0' as int)
    } else if 'a' <= c && c <= 'z' {
        (c as int) - ('a' as int) + 10
    } else if 'A' <= c && c <= 'Z' {
        (c as int) - ('A' as int) + 10
    } else {
        36
    };
    if v < radix {
        Some(v as nat)
    } else {
        None
    }
}

pub open spec fn all_radix_digits(s: Seq<char>, radix: nat) -> bool {
    forall|i: int| 0 <= i < s.len() ==> #[trigger] digit_value(s[i], radix) is Some
}

/// The value of the digits `s` in base `radix`.
pub open spec fn radix_value(s: Seq<char>, radix: nat) -> nat
    decreases s.len(),
{
    if s.len() == 0 {
        0
    } else {
        radix_value(s.drop_last(), radix) * radix + match digit_value(s.last(), radix) {
            Some(d) => d,
            None => 0,
        }
    }
}

/// What `from_str_radix` accepts for an unsigned type whose largest value
/// is `max`: an optional '+', at least one digit, and a value up to `max`.
pub open spec fn radix_text(s: Seq<char>, radix: nat, max: nat) -> Option<nat> {
    let body = if s.len() > 0 && s[0] == '+' {
        s.drop_first()
    } else {
        s
    };
    if body.len() > 0 && all_radix_digits(body, radix) && radix_value(body, radix) <= max {
        Some(radix_value(body, radix))
    } else {
        None
    }
}

proof fn lemma_radix_value_push(s: Seq<char>, c: char, radix: nat)
    ensures
        radix_value(s.push(c), radix) == radix_value(s, radix) * radix + match digit_value(c, radix) {
            Some(d) => d,
            None => 0,
        },
{
    assert(s.push(c).drop_last() =~= s);
}

proof fn lemma_radix_value_mono(s: Seq<char>, i: int, radix: nat)
    requires
        0 <= i <= s.len(),
        radix >= 1,
    ensures
        radix_value(s.take(i), radix) <= radix_value(s, radix),
    decreases s.len() - i,
{
    if i < s.len() {
        lemma_radix_value_mono(s, i + 1, radix);
        assert(s.take(i + 1) =~= s.take(i).push(s[i]));
        lemma_radix_value_push(s.take(i), s[i], radix);
        let v = radix_value(s.take(i), radix);
        assert(v * radix >= v) by (nonlinear_arith)
            requires
                radix >= 1,
                v >= 0,
        ;
    } else {
        assert(s.take(i) =~= s);
    }
}

fn digit_of(c: char, radix: u32) -> (r: Option<u32>)
    requires
        2 <= radix <= 36,
    ensures
        match digit_value(c, radix as nat) {
            Some(d) => r == Some(d as u32),
            None => r is None,
        },
{
    let v: u32 = if '0' <= c && c <= '9' {
        (c as u32) - ('0' as u32)
    } else if 'a' <= c && c <= 'z' {
        (c as u32) - ('a' as u32) + 10
    } else if 'A' <= c && c <= 'Z' {
        (c as u32) - ('A' as u32) + 10
    } else {
        36
    };
    if v < radix {
        Some(v)
    } else {
        None
    }
}

/// `from_str_radix` on the characters of `s` from `start` on, for a type
/// whose largest value is `max` (see `radix_text`).
pub fn parse_radix(s: &Vec<char>, start: usize, radix: u32, max: u64) -> (r: Option<u64>)
    requires
        start <= s@.len(),
        2 <= radix <= 36,
    ensures
        match radix_text(s@.skip(start as int), radix as nat, max as nat) {
            Some(v) => r == Some(v as u64),
            None => r is None,
        },
{
    let ghost t = s@.skip(start as int);
    let first: usize = if start < s.len() && s[start] == '+' {
        start + 1
    } else {
        start
    };
    let ghost body = s@.skip(first as int);
    assert(body =~= (if t.len() > 0 && t[0] == '+' {
        t.drop_first()
    } else {
        t
    }));
    if first >= s.len() {
        return None;
    }
    let mut value: u64 = 0;
    let mut i: usize = first;
    while i < s.len()
        invariant
            first <= i <= s@.len(),
            first < s@.len(),
            2 <= radix <= 36,
            t == s@.skip(start as int),
            body == (if t.len() > 0 && t[0] == '+' {
                t.drop_first()
            } else {
                t
            }),
            body == s@.skip(first as int),
            all_radix_digits(body.take(i - first), radix as nat),
            value == radix_value(body.take(i - first), radix as nat),
            value <= max,
        decreases s@.len() - i,
    {
        let c = s[i];
        assert(body[i - first] == c);
        let d = match digit_of(c, radix) {
            Some(d) => d as u64,
            None => {
                assert(digit_value(body[i - first], radix as nat) is None);
                return None;
            },
        };
        proof {
            assert(body.take(i - first + 1) =~= body.take(i - first).push(c));
            lemma_radix_value_push(body.take(i - first), c, radix as nat);
        }
        let r64 = radix as u64;
        if d > max || value > (max - d) / r64 {
            proof {
                if d <= max {
                    assert(value * r64 + d > max) by (nonlinear_arith)
                        requires
                            value > (max - d) / (r64 as int),
                            d <= max,
                            r64 >= 2,
                    ;
                } else {
                    assert(value * r64 + d > max) by (nonlinear_arith)
                        requires
                            d > max,
                            value >= 0,
                            r64 >= 2,
                    ;
                }
                if all_radix_digits(body, radix as nat) {
                    lemma_radix_value_mono(body, i - first + 1, radix as nat);
                }
            }
            return None;
        }
        assert(value * r64 + d <= max) by (nonlinear_arith)
            requires
                value <= (max - d) / (r64 as int),
                d <= max,
                r64 >= 2,
        ;
        value = value * r64 + d;
        i = i + 1;
    }
    assert(body.take(i - first) =~= body);
    Some(value)
}

} // verus!
