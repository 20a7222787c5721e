//! Decimal integer parsing with an exact mathematical specification.
//!
//! The view-type codec and the timestamp field both read integers out of
//! decimal strings.  The grammar is the one `str::parse` uses for integer
//! types: an optional leading `+` (and, for signed targets, `-`) followed by
//! one or more ASCII digits, rejecting everything else and every value that
//! falls outside the target range.  The specification is stated over the
//! UTF-8 bytes of the input string.

use vstd::prelude::*;

verus! {

use vstd::string::StringSliceAdditionalSpecFns;

/// ASCII code of `+`.
pub const PLUS: u8 = 43;
/// ASCII code of `-`.
pub const MINUS: u8 = 45;
/// ASCII code of `0`.
pub const ZERO: u8 = 48;
/// ASCII code of `9`.
pub const NINE: u8 = 57;

pub open spec fn is_dec_digit(b: u8) -> bool {
    ZERO <= b <= NINE
}

pub open spec fn all_dec_digits(s: Seq<u8>) -> bool {
    forall|i: int| 0 <= i < s.len() ==> is_dec_digit(#[trigger] s[i])
}

/// The value of a string of decimal digits, most significant first.
pub open spec fn dec_val(s: Seq<u8>) -> nat
    recommends
        all_dec_digits(s),
    decreases s.len(),
{
    if s.len() == 0 {
        0
    } else {
        (dec_val(s.drop_last()) * 10 + (s.last() - ZERO)) as nat
    }
}

/// What `str::parse` yields on `s` for an unsigned target with maximum
/// value `max`: an optional `+`, then one or more digits, value in range.
pub open spec fn parse_uint(s: Seq<u8>, max: nat) -> Option<nat> {
    let d = if s.len() > 0 && s[0] == PLUS {
        s.drop_first()
    } else {
        s
    };
    if d.len() > 0 && all_dec_digits(d) && dec_val(d) <= max {
        Some(dec_val(d))
    } else {
        None
    }
}

/// What `str::parse` yields on `s` for a signed target with range
/// `[min, max]`: an optional sign, then one or more digits, value in range.
pub open spec fn parse_sint(s: Seq<u8>, min: int, max: int) -> Option<int>
    recommends
        min <= 0 <= max,
{
    if s.len() > 0 && s[0] == MINUS {
        let d = s.drop_first();
        if d.len() > 0 && all_dec_digits(d) && -(dec_val(d) as int) >= min {
            Some(-(dec_val(d) as int))
        } else {
            None
        }
    } else {
        match parse_uint(s, max as nat) {
            Some(v) => Some(v as int),
            None => None,
        }
    }
}

/// Appending one digit multiplies the value by ten and adds the digit.
proof fn lemma_dec_val_step(s: Seq<u8>, i: int)
    requires
        0 <= i < s.len(),
        is_dec_digit(s[i]),
    ensures
        dec_val(s.take(i + 1)) == dec_val(s.take(i)) * 10 + (s[i] - ZERO),
{
    assert(s.take(i + 1).drop_last() =~= s.take(i));
    assert(s.take(i + 1).last() == s[i]);
}

/// For an all-digit string, the value of a prefix never exceeds the value
/// of the whole string.
proof fn lemma_dec_val_prefix_le(s: Seq<u8>, i: int)
    requires
        0 <= i <= s.len(),
        all_dec_digits(s),
    ensures
        dec_val(s.take(i)) <= dec_val(s),
    decreases s.len() - i,
{
    if i == s.len() {
        assert(s.take(i) =~= s);
    } else {
        lemma_dec_val_step(s, i);
        assert(dec_val(s.take(i)) * 10 >= dec_val(s.take(i)) * 1) by (nonlinear_arith);
        lemma_dec_val_prefix_le(s, i + 1);
    }
}

/// Reads an all-digit byte string into a `u64`, reporting exactly why it
/// failed otherwise: empty input, a non-digit byte, or a value above
/// `u64::MAX`.
pub fn parse_dec_digits_u64(d: &[u8]) -> (r: Option<u64>)
    ensures
        match r {
            Some(v) => d@.len() > 0 && all_dec_digits(d@) && dec_val(d@) == v as nat,
            None => d@.len() == 0 || !all_dec_digits(d@) || dec_val(d@) > u64::MAX,
        },
{
    if d.len() == 0 {
        return None;
    }
    let mut acc: u64 = 0;
    let mut i: usize = 0;
    while i < d.len()
        invariant
            0 <= i <= d@.len(),
            all_dec_digits(d@.take(i as int)),
            acc as nat == dec_val(d@.take(i as int)),
        decreases d@.len() - i,
    {
        let b = d[i];
        if b < ZERO || b > NINE {
            assert(!is_dec_digit(d@[i as int]));
            return None;
        }
        let digit: u64 = (b - ZERO) as u64;
        proof {
            lemma_dec_val_step(d@, i as int);
            assert(all_dec_digits(d@.take(i as int + 1)));
        }
        match acc.checked_mul(10) {
            Some(p) => {
                match p.checked_add(digit) {
                    Some(n) => {
                        acc = n;
                    },
                    None => {
                        proof {
                            if all_dec_digits(d@) {
                                lemma_dec_val_prefix_le(d@, i as int + 1);
                            }
                        }
                        return None;
                    },
                }
            },
            None => {
                proof {
                    if all_dec_digits(d@) {
                        lemma_dec_val_prefix_le(d@, i as int + 1);
                    }
                }
                return None;
            },
        }
        i += 1;
    }
    proof {
        assert(d@.take(i as int) =~= d@);
    }
    Some(acc)
}

/// Strips one leading `+` if present; the digits that `str::parse` reads
/// for an unsigned target.
fn strip_plus<'a>(d: &'a [u8]) -> (r: &'a [u8])
    ensures
        r@ == (if d@.len() > 0 && d@[0] == PLUS {
            d@.drop_first()
        } else {
            d@
        }),
{
    if d.len() > 0 && d[0] == PLUS {
        let r = &d[1..d.len()];
        proof {
            assert(r@ =~= d@.drop_first());
        }
        r
    } else {
        d
    }
}

/// `str::parse` for an unsigned target whose maximum value is `max`.
pub fn parse_uint_str(s: &str, max: u64) -> (r: Option<u64>)
    ensures
        match r {
            Some(v) => parse_uint(s.spec_bytes(), max as nat) == Some(v as nat),
            None => parse_uint(s.spec_bytes(), max as nat) is None,
        },
{
    let d = s.as_bytes();
    let digits = strip_plus(d);
    match parse_dec_digits_u64(digits) {
        Some(v) => {
            if v <= max {
                Some(v)
            } else {
                None
            }
        },
        None => None,
    }
}

/// `str::parse` for a signed target with range `[-(neg_bound), pos_bound]`.
pub fn parse_sint_str(s: &str, neg_bound: u64, pos_bound: u64) -> (r: Option<i64>)
    requires
        neg_bound <= 9223372036854775808u64,
        pos_bound <= i64::MAX,
    ensures
        match r {
            Some(v) => parse_sint(s.spec_bytes(), -(neg_bound as int), pos_bound as int)
                == Some(v as int),
            None => parse_sint(s.spec_bytes(), -(neg_bound as int), pos_bound as int) is None,
        },
{
    let d = s.as_bytes();
    if d.len() > 0 && d[0] == MINUS {
        let digits = &d[1..d.len()];
        proof {
            assert(digits@ =~= d@.drop_first());
        }
        match parse_dec_digits_u64(digits) {
            Some(v) => {
                if v <= neg_bound {
                    if v == 9223372036854775808u64 {
                        Some(i64::MIN)
                    } else {
                        Some(-(v as i64))
                    }
                } else {
                    None
                }
            },
            None => None,
        }
    } else {
        let digits = strip_plus(d);
        match parse_dec_digits_u64(digits) {
            Some(v) => {
                if v <= pos_bound {
                    Some(v as i64)
                } else {
                    None
                }
            },
            None => None,
        }
    }
}

} // verus!
