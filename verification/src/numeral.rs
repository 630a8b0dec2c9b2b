//! Decimal numerals as they stand in scene-description scalars.
//!
//! Scalar values in a scene description are plain text; the builders read
//! unsigned integers (for example `max_depth`) and non-negative decimal
//! numbers (for example `rr_threshold`) out of that text. Both readings are
//! specified here over sequences of characters and implemented as verified
//! functions.

use vstd::prelude::*;

verus! {

/// Whether a character is an ASCII decimal digit.
pub open spec fn is_digit(c: char) -> bool {
    48 <= c as u32 <= 57
}

/// The numeric value of an ASCII decimal digit.
pub open spec fn digit_value(c: char) -> nat
    recommends
        is_digit(c),
{
    (c as u32 - 48) as nat
}

/// Whether every character of the sequence is an ASCII decimal digit.
pub open spec fn all_digits(s: Seq<char>) -> bool {
    forall|i: int| 0 <= i < s.len() ==> is_digit(s[i])
}

/// The value of a digit sequence read as a base-ten numeral.
pub open spec fn numeral_value(s: Seq<char>) -> nat
    decreases s.len(),
{
    if s.len() == 0 {
        0
    } else {
        numeral_value(s.drop_last()) * 10 + digit_value(s.last())
    }
}

/// Whether the text is an unsigned decimal numeral whose value fits in `u32`.
pub open spec fn is_u32_numeral(s: Seq<char>) -> bool {
    &&& s.len() > 0
    &&& all_digits(s)
    &&& numeral_value(s) <= u32::MAX
}

/// Whether the text is a non-negative decimal number: one or more digits,
/// optionally followed by a point and one or more further digits.
pub open spec fn is_decimal_numeral(s: Seq<char>) -> bool {
    ||| (s.len() > 0 && all_digits(s))
    ||| (exists|i: int|
        {
            &&& 0 < i < s.len() - 1
            &&& s[i] == '.'
            &&& all_digits(s.take(i))
            &&& all_digits(s.skip(i + 1))
        })
}

/// A numeral's value never falls when further digits are appended: the value
/// of each prefix is a lower bound on the value of the whole.
pub proof fn lemma_numeral_prefix_bound(s: Seq<char>, i: int)
    requires
        0 <= i <= s.len(),
    ensures
        numeral_value(s.take(i)) <= numeral_value(s),
    decreases s.len() - i,
{
    if i < s.len() {
        lemma_numeral_prefix_bound(s, i + 1);
        assert(s.take(i + 1).drop_last() =~= s.take(i));
        assert(numeral_value(s.take(i + 1)) == numeral_value(s.take(i)) * 10 + digit_value(
            s.take(i + 1).last(),
        ));
    } else {
        assert(s.take(i) =~= s);
    }
}

/// Reads the text as an unsigned decimal numeral.
///
/// Yields the numeral's value exactly when the text is one or more decimal
/// digits whose value fits in `u32`; any other text yields nothing.
pub fn parse_u32(s: &str) -> (r: Option<u32>)
    ensures
        r is Some <==> is_u32_numeral(s@),
        r matches Some(v) ==> v == numeral_value(s@),
{
    let len = s.unicode_len();
    if len == 0 {
        return None;
    }
    let mut acc: u64 = 0;
    let mut i: usize = 0;
    while i < len
        invariant
            0 <= i <= len,
            len == s@.len(),
            all_digits(s@.take(i as int)),
            acc == numeral_value(s@.take(i as int)),
            acc <= u32::MAX,
        decreases len - i,
    {
        let c = s.get_char(i);
        let u = c as u32;
        if u < 48 || u > 57 {
            assert(!is_digit(s@[i as int]));
            return None;
        }
        let d: u64 = (u - 48) as u64;
        let next: u64 = acc * 10 + d;
        proof {
            assert(s@.take(i + 1).drop_last() =~= s@.take(i as int));
            assert(s@.take(i + 1).last() == s@[i as int]);
        }
        if next > 0xffff_ffff {
            proof {
                if is_u32_numeral(s@) {
                    lemma_numeral_prefix_bound(s@, i + 1);
                }
            }
            return None;
        }
        acc = next;
        i += 1;
    }
    proof {
        assert(s@.take(len as int) =~= s@);
    }
    Some(acc as u32)
}

/// Tests whether the text is a non-negative decimal number: one or more
/// digits, optionally followed by a point and one or more further digits.
pub fn is_decimal(s: &str) -> (r: bool)
    ensures
        r == is_decimal_numeral(s@),
{
    let len = s.unicode_len();
    if len == 0 {
        return false;
    }
    let mut i: usize = 0;
    let mut point_at: Option<usize> = None;
    while i < len
        invariant
            0 <= i <= len,
            len == s@.len(),
            match point_at {
                Some(p) => {
                    &&& 0 < p < i
                    &&& p + 1 < len
                    &&& s@[p as int] == '.'
                    &&& all_digits(s@.take(p as int))
                    &&& all_digits(s@.subrange(p + 1, i as int))
                },
                None => all_digits(s@.take(i as int)),
            },
        decreases len - i,
    {
        let c = s.get_char(i);
        let u = c as u32;
        if 48 <= u && u <= 57 {
            proof {
                match point_at {
                    Some(p) => {
                        assert(s@.subrange(p + 1, i + 1) =~= s@.subrange(p + 1, i as int).push(
                            s@[i as int],
                        ));
                    },
                    None => {
                        assert(s@.take(i + 1) =~= s@.take(i as int).push(s@[i as int]));
                    },
                }
            }
        } else if c == '.' && point_at.is_none() && i > 0 && i < len - 1 {
            point_at = Some(i);
            proof {
                assert(s@.subrange(i + 1, i + 1) =~= Seq::<char>::empty());
            }
        } else {
            proof {
                lemma_not_decimal(s@, i as int, point_at);
            }
            return false;
        }
        i += 1;
    }
    match point_at {
        Some(p) => {
            proof {
                assert(s@.subrange(p + 1, len as int) =~= s@.skip(p + 1));
                assert(0 < p < s@.len() - 1 && s@[p as int] == '.' && all_digits(
                    s@.take(p as int),
                ) && all_digits(s@.skip(p + 1)));
                assert(is_decimal_numeral(s@));
            }
            true
        },
        None => {
            proof {
                assert(s@.take(len as int) =~= s@);
            }
            true
        },
    }
}

/// The scan of `is_decimal` rejects correctly: if the character under the
/// cursor fits neither a digit nor a first interior point, no decomposition
/// of the whole text into digits-point-digits exists.
proof fn lemma_not_decimal(s: Seq<char>, i: int, point_at: Option<usize>)
    requires
        0 <= i < s.len(),
        !is_digit(s[i]),
        match point_at {
            Some(p) => {
                &&& 0 < p < i
                &&& s[p as int] == '.'
                &&& all_digits(s.take(p as int))
                &&& all_digits(s.subrange(p + 1, i))
            },
            None => all_digits(s.take(i)),
        },
        !(s[i] == '.' && point_at is None && 0 < i < s.len() - 1),
    ensures
        !is_decimal_numeral(s),
{
    assert(!(s.len() > 0 && all_digits(s)));
    assert forall|j: int|
        0 < j < s.len() - 1 && s[j] == '.' && all_digits(s.take(j)) implies !all_digits(
        s.skip(j + 1),
    ) by {
        match point_at {
            Some(p) => {
                if j < p {
                    assert(is_digit(s.take(p as int)[j]));
                    assert(false);
                } else if j > p {
                    if j < i {
                        assert(is_digit(s.subrange(p + 1, i)[j - p - 1]));
                        assert(is_digit(s.take(j)[p as int]));
                        assert(false);
                    } else if j == i {
                        assert(false);
                    } else {
                        assert(is_digit(s.take(j)[i]));
                        assert(false);
                    }
                } else {
                    assert(!is_digit(s.skip(j + 1)[i - j - 1]));
                }
            },
            None => {
                if j < i {
                    assert(!is_digit(s.skip(j + 1)[i - j - 1]));
                } else if j == i {
                    assert(false);
                } else {
                    assert(is_digit(s.take(j)[i]));
                    assert(false);
                }
            },
        }
    }
}

} // verus!
