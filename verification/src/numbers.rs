//! Reading of flags and whole numbers written as text.

use crate::text::{chars_of, same_text};
use vstd::prelude::*;

verus! {

/// Whether `c` is a decimal digit.
pub open spec fn is_digit(c: char) -> bool {
    0x30 <= c as u32 <= 0x39
}

/// Whether every character of `s` is a decimal digit.
pub open spec fn all_digits(s: Seq<char>) -> bool {
    forall|i: int| 0 <= i < s.len() ==> is_digit(#[trigger] s[i])
}

/// The number that a text of decimal digits writes.
pub open spec fn digits_value(s: Seq<char>) -> int
    decreases s.len(),
{
    if s.len() == 0 {
        0
    } else {
        digits_value(s.drop_last()) * 10 + (s.last() as u32 - 0x30)
    }
}

/// The number that a text writes: decimal digits, at least one, behind an
/// optional sign. Any other text writes none.
pub open spec fn signed_decimal(s: Seq<char>) -> Option<int> {
    if s.len() == 0 {
        None
    } else {
        let negative = s[0] == '-';
        let body = if s[0] == '-' || s[0] == '+' {
            s.drop_first()
        } else {
            s
        };
        if body.len() == 0 || !all_digits(body) {
            None
        } else if negative {
            Some(-digits_value(body))
        } else {
            Some(digits_value(body))
        }
    }
}

/// The 64-bit integer that a text writes, where it writes a number that
/// such an integer holds.
pub open spec fn parsed_i64(s: Seq<char>) -> Option<i64> {
    match signed_decimal(s) {
        Some(v) => if i64::MIN <= v <= i64::MAX {
            Some(v as i64)
        } else {
            None
        },
        None => None,
    }
}

/// The flag that a text writes: `true` or `false`, in these letters.
pub open spec fn parsed_bool(s: Seq<char>) -> Option<bool> {
    if s == "true"@ {
        Some(true)
    } else if s == "false"@ {
        Some(false)
    } else {
        None
    }
}

/// A text of digits writes no less than any of its beginnings.
pub proof fn lemma_digits_grow(s: Seq<char>, k: int)
    requires
        all_digits(s),
        0 <= k <= s.len(),
    ensures
        0 <= digits_value(s.subrange(0, k)) <= digits_value(s),
    decreases s.len() - k,
{
    lemma_digits_nonnegative(s.subrange(0, k));
    if k < s.len() {
        let next = s.subrange(0, k + 1);
        assert(next.drop_last() =~= s.subrange(0, k));
        assert(is_digit(s[k]));
        assert(next.last() == s[k]);
        lemma_digits_grow(s, k + 1);
    } else {
        assert(s.subrange(0, k) =~= s);
    }
}

/// A text of digits writes a number that is not negative.
pub proof fn lemma_digits_nonnegative(s: Seq<char>)
    requires
        all_digits(s),
    ensures
        0 <= digits_value(s),
    decreases s.len(),
{
    if s.len() > 0 {
        assert(is_digit(s.last()));
        assert forall|i: int| 0 <= i < s.drop_last().len() implies is_digit(
            #[trigger] s.drop_last()[i],
        ) by {
            assert(s.drop_last()[i] == s[i]);
        }
        lemma_digits_nonnegative(s.drop_last());
    }
}

/// The flag that a text writes.
pub fn parse_bool(s: &str) -> (r: Option<bool>)
    ensures
        r == parsed_bool(s@),
{
    if same_text(s, "true") {
        Some(true)
    } else if same_text(s, "false") {
        Some(false)
    } else {
        None
    }
}

/// The 64-bit integer that a text writes.
pub fn parse_i64(s: &str) -> (r: Option<i64>)
    ensures
        r == parsed_i64(s@),
{
    let chars = chars_of(s);
    let n: usize = chars.len();
    if n == 0 {
        return None;
    }
    let negative = chars[0] == '-';
    let first: usize = if chars[0] == '-' || chars[0] == '+' {
        1
    } else {
        0
    };
    if first == n {
        return None;
    }
    let ghost body = s@.subrange(first as int, n as int);
    proof {
        if first == 1 {
            assert(body =~= s@.drop_first());
        } else {
            assert(body =~= s@);
        }
    }
    // The number is gathered below zero, where the lowest integer has room.
    let mut acc: i64 = 0;
    let mut i: usize = first;
    assert(body.subrange(0, 0) =~= Seq::<char>::empty());
    while i < n
        invariant
            chars@ == s@,
            n == chars@.len(),
            first <= i <= n,
            n > 0,
            first < n,
            negative == (s@[0] == '-'),
            body == (if s@[0] == '-' || s@[0] == '+' {
                s@.drop_first()
            } else {
                s@
            }),
            body == s@.subrange(first as int, n as int),
            all_digits(body.subrange(0, i - first)),
            acc == -digits_value(body.subrange(0, i - first)),
        decreases n - i,
    {
        let c = chars[i];
        let code: u32 = c as u32;
        let ghost seen = body.subrange(0, i - first);
        let ghost next = body.subrange(0, i - first + 1);
        proof {
            assert(next.drop_last() =~= seen);
            assert(next.last() == c);
            assert(digits_value(next) == digits_value(seen) * 10 + (c as u32 - 0x30));
            lemma_digits_nonnegative(seen);
        }
        if code < 0x30 || code > 0x39 {
            proof {
                assert(!is_digit(body[i - first]));
                assert(!all_digits(body));
            }
            return None;
        }
        let d: i64 = (code - 0x30) as i64;
        proof {
            assert(all_digits(next)) by {
                assert forall|j: int| 0 <= j < next.len() implies is_digit(#[trigger] next[j]) by {
                    if j < seen.len() {
                        assert(next[j] == seen[j]);
                    }
                }
            }
        }
        let scaled = match acc.checked_mul(10) {
            Some(v) => v,
            None => {
                proof {
                    lemma_out_of_range(body, i - first + 1);
                }
                return None;
            },
        };
        let lowered = match scaled.checked_sub(d) {
            Some(v) => v,
            None => {
                proof {
                    lemma_out_of_range(body, i - first + 1);
                }
                return None;
            },
        };
        acc = lowered;
        i = i + 1;
    }
    proof {
        assert(body.subrange(0, n - first) =~= body);
    }
    if negative {
        Some(acc)
    } else if acc == i64::MIN {
        None
    } else {
        Some(-acc)
    }
}

/// Where a beginning of a text writes a number beyond what a 64-bit integer
/// holds, below zero or above, the text writes no such integer.
pub proof fn lemma_out_of_range(body: Seq<char>, k: int)
    requires
        0 <= k <= body.len(),
        all_digits(body.subrange(0, k)),
        digits_value(body.subrange(0, k)) > 0x8000_0000_0000_0000,
    ensures
        !all_digits(body) || digits_value(body) > 0x8000_0000_0000_0000,
{
    if all_digits(body) {
        lemma_digits_grow(body, k);
    }
}

} // verus!
