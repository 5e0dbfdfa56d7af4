//! Conversion of caller-supplied record ids from their string form.

use vstd::prelude::*;

use crate::errors::{AuthError, InputFault};
use crate::validate::{chars_of, digit_char, is_digit_char};

verus! {

/// Every character is a decimal digit.
pub open spec fn all_digits(s: Seq<char>) -> bool {
    forall|i: int| 0 <= i < s.len() ==> is_digit_char(#[trigger] s[i])
}

/// Numeric value of a digit string, most significant first.
pub open spec fn spec_decimal_value(s: Seq<char>) -> int
    decreases s.len(),
{
    if s.len() == 0 {
        0
    } else {
        spec_decimal_value(s.drop_last()) * 10 + (s.last() as int - '0' as int)
    }
}

/// The id a string denotes: a non-empty, all-digit string whose value fits
/// the id type.
pub open spec fn spec_parse_id(s: Seq<char>) -> Option<u64> {
    if s.len() == 0 || !all_digits(s) || spec_decimal_value(s) > u64::MAX {
        None
    } else {
        Some(spec_decimal_value(s) as u64)
    }
}

/// A digit string's value is never negative.
proof fn lemma_decimal_nonneg(s: Seq<char>)
    requires
        all_digits(s),
    ensures
        spec_decimal_value(s) >= 0,
    decreases s.len(),
{
    if s.len() > 0 {
        assert forall|i: int| 0 <= i < s.drop_last().len() implies is_digit_char(
            #[trigger] s.drop_last()[i],
        ) by {
            assert(s.drop_last()[i] == s[i]);
        }
        lemma_decimal_nonneg(s.drop_last());
    }
}

/// Extending a digit string never shrinks its value.
proof fn lemma_decimal_prefix_le(s: Seq<char>, j: int, k: int)
    requires
        all_digits(s),
        0 <= j <= k <= s.len(),
    ensures
        spec_decimal_value(s.subrange(0, j)) <= spec_decimal_value(s.subrange(0, k)),
    decreases k - j,
{
    if j < k {
        lemma_decimal_prefix_le(s, j, k - 1);
        let shorter = s.subrange(0, k - 1);
        let longer = s.subrange(0, k);
        assert forall|i: int| 0 <= i < shorter.len() implies is_digit_char(
            #[trigger] shorter[i],
        ) by {
            assert(shorter[i] == s[i]);
        }
        lemma_decimal_nonneg(shorter);
        assert(longer.drop_last() =~= shorter);
        assert(longer.last() == s[k - 1]);
        assert(is_digit_char(s[k - 1]));
    }
}

/// Converts ids arriving as strings.
#[derive(Debug, Clone, Copy)]
pub struct Converter;

impl Converter {
    /// Parses a store-assigned id from its decimal string form. Rejected with
    /// the id-format fault when empty, non-numeric, or out of range.
    pub fn string_to_id(id: &String) -> (r: Result<u64, AuthError>)
        ensures
            match spec_parse_id(id@) {
                Some(value) => r == Ok::<u64, AuthError>(value),
                None => r == Err::<u64, AuthError>(AuthError::InvalidInput(InputFault::IdFormat)),
            },
    {
        let v = chars_of(id.as_str());
        let n = v.len();
        if n == 0 {
            return Err(AuthError::InvalidInput(InputFault::IdFormat));
        }
        let mut i: usize = 0;
        while i < n
            invariant
                i <= n == v@.len(),
                v@ == id@,
                forall|k: int| 0 <= k < i ==> is_digit_char(#[trigger] v@[k]),
            decreases n - i,
        {
            if !digit_char(v[i]) {
                proof {
                    assert(!all_digits(v@));
                }
                return Err(AuthError::InvalidInput(InputFault::IdFormat));
            }
            i += 1;
        }
        let mut acc: u64 = 0;
        let mut k: usize = 0;
        proof {
            assert(v@.subrange(0, 0) =~= Seq::<char>::empty());
        }
        while k < n
            invariant
                k <= n == v@.len(),
                v@ == id@,
                all_digits(v@),
                acc == spec_decimal_value(v@.subrange(0, k as int)),
            decreases n - k,
        {
            let c = v[k];
            let d = (c as u32 - '0' as u32) as u64;
            proof {
                assert(v@.subrange(0, k + 1).drop_last() =~= v@.subrange(0, k as int));
                assert(v@.subrange(0, k + 1).last() == v@[k as int]);
            }
            let grown = match acc.checked_mul(10) {
                Some(a) => a,
                None => {
                    proof {
                        lemma_decimal_prefix_le(v@, k + 1, n as int);
                        assert(v@.subrange(0, n as int) =~= v@);
                    }
                    return Err(AuthError::InvalidInput(InputFault::IdFormat));
                },
            };
            acc = match grown.checked_add(d) {
                Some(a) => a,
                None => {
                    proof {
                        lemma_decimal_prefix_le(v@, k + 1, n as int);
                        assert(v@.subrange(0, n as int) =~= v@);
                    }
                    return Err(AuthError::InvalidInput(InputFault::IdFormat));
                },
            };
            k += 1;
        }
        proof {
            assert(v@.subrange(0, n as int) =~= v@);
        }
        Ok(acc)
    }
}

} // verus!
