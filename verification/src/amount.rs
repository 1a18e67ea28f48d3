//! Exact fixed-point parsing of decimal amount strings.
//!
//! Statement amounts are decimal strings such as `"123.45"` or `"-42.10"`.
//! They are stored in minor currency units (cents): the value kept for an
//! amount string `d` is exactly `floor(|d| * 100)`, computed over the digits
//! with integer arithmetic, so typical two-decimal inputs convert without any
//! rounding drift and never touch floating point.
use vstd::prelude::*;

verus! {

pub open spec fn is_digit(c: char) -> bool {
    '0' <= c && c <= '9'
}

pub open spec fn digit_val(c: char) -> nat {
    (c as int - '0' as int) as nat
}

pub open spec fn all_digits(s: Seq<char>) -> bool {
    forall|i: int| 0 <= i < s.len() ==> is_digit(#[trigger] s[i])
}

/// The value of a digit string read in base ten.
pub open spec fn digits_val(s: Seq<char>) -> nat
    decreases s.len(),
{
    if s.len() == 0 {
        0
    } else {
        digits_val(s.drop_last()) * 10 + digit_val(s.last())
    }
}

/// The minor-unit contribution of the fractional digits: only the first two
/// count, so the overall conversion truncates toward zero.
pub open spec fn frac_minor(fp: Seq<char>) -> nat {
    if fp.len() == 0 {
        0
    } else if fp.len() == 1 {
        digit_val(fp[0]) * 10
    } else {
        digit_val(fp[0]) * 10 + digit_val(fp[1])
    }
}

/// The position of the first `.` in `s` at or after `i`, if any.
pub open spec fn first_dot(s: Seq<char>, i: int) -> Option<int>
    decreases s.len() - i,
{
    if i < 0 || i >= s.len() {
        None
    } else if s[i] == '.' {
        Some(i)
    } else {
        first_dot(s, i + 1)
    }
}

/// The minor-unit value of an unsigned decimal string: an integer part and a
/// fractional part around an optional dot, at least one digit in all, every
/// character a digit. The result is exactly `floor(value * 100)`.
pub open spec fn unsigned_minor(s: Seq<char>) -> Option<nat> {
    match first_dot(s, 0) {
        None => if s.len() > 0 && all_digits(s) {
            Some(digits_val(s) * 100)
        } else {
            None
        },
        Some(i) => {
            let ip = s.take(i);
            let fp = s.skip(i + 1);
            if ip.len() + fp.len() > 0 && all_digits(ip) && all_digits(fp) {
                Some(digits_val(ip) * 100 + frac_minor(fp))
            } else {
                None
            }
        },
    }
}

/// The sign and minor-unit magnitude of a decimal amount string: an optional
/// leading `+` or `-`, then an unsigned decimal body. The magnitude is
/// `floor(|d| * 100)` exactly.
pub open spec fn decimal_minor(s: Seq<char>) -> Option<(bool, nat)> {
    if s.len() > 0 && (s[0] == '+' || s[0] == '-') {
        match unsigned_minor(s.skip(1)) {
            Some(v) => Some((s[0] == '-', v)),
            None => None,
        }
    } else {
        match unsigned_minor(s) {
            Some(v) => Some((false, v)),
            None => None,
        }
    }
}

/// Whether the field holds any nonzero digit. For a well-formed decimal
/// amount string this is exactly strict positivity of its magnitude — even
/// when the value is below one cent and its minor-unit form truncates to
/// zero.
pub open spec fn has_nonzero_digit(s: Seq<char>) -> bool {
    exists|i: int| 0 <= i < s.len() && is_digit(#[trigger] s[i]) && s[i] != '0'
}

/// Whether a field holds any nonzero digit; exactly `has_nonzero_digit`.
pub fn find_nonzero_digit(s: &Vec<char>) -> (r: bool)
    ensures
        r == has_nonzero_digit(s@),
{
    let n = s.len();
    let mut i: usize = 0;
    while i < n
        invariant
            i <= n == s@.len(),
            forall|j: int| 0 <= j < i ==> !(is_digit(#[trigger] s@[j]) && s@[j] != '0'),
        decreases n - i,
    {
        let c = s[i];
        if c >= '1' && c <= '9' {
            proof {
                assert(is_digit(s@[i as int]) && s@[i as int] != '0');
            }
            return true;
        }
        i += 1;
    }
    false
}

proof fn lemma_first_dot_props(s: Seq<char>, i: int)
    requires
        0 <= i <= s.len(),
    ensures
        match first_dot(s, i) {
            None => forall|j: int| i <= j < s.len() ==> s[j] != '.',
            Some(d) => i <= d < s.len() && s[d] == '.' && forall|j: int| i <= j < d ==> s[j] != '.',
        },
    decreases s.len() - i,
{
    if i < s.len() && s[i] != '.' {
        lemma_first_dot_props(s, i + 1);
    }
}

proof fn lemma_first_dot_at(s: Seq<char>, i: int, d: int)
    requires
        0 <= i <= d < s.len(),
        s[d] == '.',
        forall|j: int| i <= j < d ==> s[j] != '.',
    ensures
        first_dot(s, i) == Some(d),
    decreases d - i,
{
    if i < d {
        lemma_first_dot_at(s, i + 1, d);
    }
}

/// Parses an amount field into its sign and minor-unit magnitude.
///
/// Returns the exact value `decimal_minor` gives, or nothing when the field
/// is not a decimal amount string or its magnitude does not fit in a `u64`.
#[verifier::rlimit(100)]
#[verifier::loop_isolation(false)]
pub fn parse_decimal_minor(s: &Vec<char>) -> (r: Option<(bool, u64)>)
    ensures
        match decimal_minor(s@) {
            None => r is None,
            Some((neg, v)) => if v <= u64::MAX {
                r == Some::<(bool, u64)>((neg, v as u64))
            } else {
                r is None
            },
        },
{
    let n = s.len();
    let mut j: usize = 0;
    let mut neg = false;
    if n > 0 && (s[0] == '+' || s[0] == '-') {
        neg = s[0] == '-';
        j = 1;
    }
    let start: usize = j;
    let ghost body = s@.skip(start as int);
    proof {
        assert(s@.skip(0) =~= s@);
    }
    assert(decimal_minor(s@) == match unsigned_minor(body) {
        Some(v) => Some((neg, v)),
        None => None::<(bool, nat)>,
    });

    // Integer part: digits up to the first dot or the end of the field.
    let mut acc: u64 = 0;
    let mut over = false;
    while j < n && s[j] != '.'
        invariant
            start <= j <= n == s@.len(),
            body == s@.skip(start as int),
            forall|k: int| start <= k < j ==> is_digit(#[trigger] s@[k]),
            over ==> digits_val(s@.subrange(start as int, j as int)) > u64::MAX,
            !over ==> acc == digits_val(s@.subrange(start as int, j as int)),
        decreases n - j,
    {
        let c = s[j];
        let ghost prefix = s@.subrange(start as int, j as int);
        let ghost prefix1 = s@.subrange(start as int, j + 1 as int);
        proof {
            assert(prefix1.drop_last() =~= prefix);
            assert(prefix1.last() == s@[j as int]);
        }
        if c < '0' || c > '9' {
            // A character that is neither digit nor dot: whichever part of
            // the body it falls in, that part is not all digits.
            proof {
                lemma_reject_non_digit(s@, start as int, j as int);
            }
            return None;
        }
        let d = (c as u32 - '0' as u32) as u64;
        proof {
            assert(digits_val(prefix1) == digits_val(prefix) * 10 + digit_val(s@[j as int]));
            assert(digit_val(s@[j as int]) == d);
        }
        if over || acc > (u64::MAX - d) / 10 {
            proof {
                if !over {
                    assert(acc * 10 + d > u64::MAX) by {
                        assert(acc > (u64::MAX - d) / 10);
                        assert(acc * 10 > u64::MAX - d) by (nonlinear_arith)
                            requires
                                acc > (u64::MAX - d) / 10,
                                d <= 9,
                        ;
                    }
                }
                assert(digits_val(prefix1) > u64::MAX) by {
                    if over {
                        assert(digits_val(prefix) * 10 >= digits_val(prefix));
                    }
                }
            }
            over = true;
        } else {
            proof {
                assert(acc * 10 + d <= u64::MAX) by {
                    assert(acc <= (u64::MAX - d) / 10);
                    assert(acc * 10 <= u64::MAX - d) by (nonlinear_arith)
                        requires
                            acc <= (u64::MAX - d) / 10,
                    ;
                }
            }
            acc = acc * 10 + d;
        }
        j += 1;
    }

    let dotted = j < n;
    let ghost dot = j as int;
    let ghost ip = s@.subrange(start as int, dot);
    proof {
        assert(ip =~= body.take(dot - start));
        if dotted {
            assert(s@[dot] == '.');
            assert(forall|m: int|
                0 <= m < dot - start ==> body[m] == s@[start + m] && body[m] != '.');
            lemma_first_dot_at(body, 0, dot - start);
        } else {
            assert(body =~= ip);
            assert(forall|m: int| 0 <= m < body.len() ==> is_digit(#[trigger] body[m]));
            lemma_first_dot_props(body, 0);
            if first_dot(body, 0) is Some {
                let d0 = first_dot(body, 0)->0;
                assert(is_digit(body[d0]));
                assert(false);
            }
        }
    }

    // Fractional part: every remaining character must be a digit; only the
    // first two contribute to the minor-unit value.
    let mut f: u64 = 0;
    if dotted {
        let ghost fp = s@.skip(dot + 1);
        proof {
            assert(fp =~= body.skip(dot - start + 1));
        }
        let mut k: usize = j + 1;
        if k < n {
            let c = s[k];
            if c < '0' || c > '9' {
                proof {
                    assert(!is_digit(fp[0]));
                }
                return None;
            }
            f = (c as u32 - '0' as u32) as u64 * 10;
            k += 1;
        }
        if k < n {
            let c = s[k];
            if c < '0' || c > '9' {
                proof {
                    assert(!is_digit(fp[1]));
                }
                return None;
            }
            f = f + (c as u32 - '0' as u32) as u64;
            k += 1;
        }
        while k < n
            invariant
                dot + 1 <= k <= n == s@.len(),
                fp == s@.skip(dot + 1),
                forall|m: int| dot + 1 <= m < k ==> is_digit(#[trigger] s@[m]),
            decreases n - k,
        {
            let c = s[k];
            if c < '0' || c > '9' {
                proof {
                    assert(s@.skip(dot + 1)[k - dot - 1] == s@[k as int]);
                    assert(!is_digit(fp[k - dot - 1]));
                }
                return None;
            }
            k += 1;
        }
        proof {
            assert(all_digits(fp)) by {
                assert(forall|m: int|
                    0 <= m < fp.len() ==> fp[m] == s@[dot + 1 + m] && is_digit(#[trigger] fp[m]));
            }
            assert(frac_minor(fp) == f);
            assert(f <= 99);
        }
        if start == j && j + 1 >= n {
            // A lone dot with no digit on either side.
            proof {
                assert(ip.len() + fp.len() == 0);
            }
            return None;
        }
    } else {
        if start == j {
            // An empty body (or a bare sign).
            proof {
                assert(body.len() == 0);
            }
            return None;
        }
    }

    let ghost v = unsigned_minor(body)->0;
    proof {
        assert(unsigned_minor(body) is Some);
        if dotted {
            let fp = s@.skip(dot + 1);
            assert(v == digits_val(ip) * 100 + frac_minor(fp));
            assert(frac_minor(fp) == f);
        } else {
            assert(v == digits_val(body) * 100 + f);
        }
    }
    if over {
        proof {
            assert(digits_val(ip) * 100 >= digits_val(ip));
            assert(v > u64::MAX);
        }
        return None;
    }
    if acc > (u64::MAX - f) / 100 {
        proof {
            assert(acc * 100 > u64::MAX - f) by (nonlinear_arith)
                requires
                    acc > (u64::MAX - f) / 100,
                    f <= 99,
            ;
            assert(v > u64::MAX);
        }
        return None;
    }
    proof {
        assert(acc * 100 <= u64::MAX - f) by (nonlinear_arith)
            requires
                acc <= (u64::MAX - f) / 100,
        ;
    }
    let minor = acc * 100 + f;
    proof {
        assert(v == minor);
    }
    Some((neg, minor))
}

/// When the integer-part scan meets a character that is neither a digit nor a
/// dot, the body can have no minor-unit value: whichever side of the first
/// dot (if any) that character lies on fails the all-digits requirement.
proof fn lemma_reject_non_digit(s: Seq<char>, start: int, j: int)
    requires
        0 <= start <= j < s.len(),
        !is_digit(s[j]),
        s[j] != '.',
        forall|k: int| start <= k < j ==> is_digit(#[trigger] s[k]),
    ensures
        unsigned_minor(s.skip(start)) is None,
{
    let body = s.skip(start);
    let jr = j - start;
    assert(!is_digit(body[jr]));
    lemma_first_dot_props(body, 0);
    match first_dot(body, 0) {
        None => {
            assert(!all_digits(body));
        },
        Some(d) => {
            assert(body[d] == '.');
            // The bad character is not a dot, and everything before it is a
            // digit, so the first dot lies strictly after it.
            assert(d != jr);
            if d < jr {
                assert(is_digit(s[start + d]));
                assert(is_digit(body[d]));
                assert(false);
            }
            let ip = body.take(d);
            assert(ip[jr] == body[jr]);
            assert(!all_digits(ip));
        },
    }
}

} // verus!
