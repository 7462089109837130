//! Decimal literals.
//!
//! The source grammar writes integer literals as strings of ASCII digits;
//! lowering turns them into the 64-bit machine integers the generated code
//! stores in its value slots.

use vstd::prelude::*;

verus! {

use crate::errors::CompileError;
use vstd::string::StringSliceAdditionalSpecFns;

/// An ASCII decimal digit.
pub open spec fn is_digit(b: u8) -> bool {
    48 <= b <= 57
}

/// Every byte of `s` is an ASCII decimal digit.
pub open spec fn all_digits(s: Seq<u8>) -> bool {
    forall|i: int| 0 <= i < s.len() ==> is_digit(#[trigger] s[i])
}

/// The number the digit string `s` denotes, most significant digit first.
pub open spec fn digits_val(s: Seq<u8>) -> int
    decreases s.len(),
{
    if s.len() == 0 {
        0
    } else {
        digits_val(s.drop_last()) * 10 + (s.last() - 48)
    }
}

/// The value of the literal written as `s`: defined exactly for non-empty
/// all-digit strings whose value fits in an `i64`.
pub open spec fn lit_val(s: Seq<u8>) -> Option<i64> {
    if s.len() > 0 && all_digits(s) && digits_val(s) <= i64::MAX {
        Some(digits_val(s) as i64)
    } else {
        None
    }
}

/// A digit string denotes a non-negative number.
pub proof fn lemma_digits_val_nonneg(s: Seq<u8>)
    requires
        all_digits(s),
    ensures
        digits_val(s) >= 0,
    decreases s.len(),
{
    if s.len() > 0 {
        assert(all_digits(s.drop_last()));
        lemma_digits_val_nonneg(s.drop_last());
    }
}

/// Extending a digit string never shrinks its value.
pub proof fn lemma_digits_val_prefix_le(t: Seq<u8>, j: int)
    requires
        all_digits(t),
        0 <= j <= t.len(),
    ensures
        digits_val(t.take(j)) <= digits_val(t),
    decreases t.len() - j,
{
    if j < t.len() {
        lemma_digits_val_prefix_le(t, j + 1);
        assert(t.take(j + 1).drop_last() =~= t.take(j));
        assert(all_digits(t.take(j)));
        lemma_digits_val_nonneg(t.take(j));
        assert(digits_val(t.take(j + 1)) == digits_val(t.take(j)) * 10 + (t[j] - 48));
    } else {
        assert(t.take(j) =~= t);
    }
}

/// Parse a decimal literal, rejecting anything that is not a string of
/// digits denoting a value that fits the 64-bit value slot.
pub fn parse_i64(s: &str) -> (r: Result<i64, CompileError>)
    ensures
        r matches Ok(v) ==> lit_val(s.spec_bytes()) == Some(v),
        r matches Err(e) ==> lit_val(s.spec_bytes()) is None && e == CompileError::BadLiteral,
{
    let bytes = s.as_bytes();
    let n = bytes.len();
    if n == 0 {
        return Err(CompileError::BadLiteral);
    }
    let mut acc: i64 = 0;
    let mut i: usize = 0;
    while i < n
        invariant
            n == bytes@.len(),
            bytes@ == s.spec_bytes(),
            0 <= i <= n,
            all_digits(bytes@.take(i as int)),
            0 <= acc <= i64::MAX,
            acc == digits_val(bytes@.take(i as int)),
        decreases n - i,
    {
        let b = bytes[i];
        if b < 48 || b > 57 {
            assert(!is_digit(s.spec_bytes()[i as int]));
            return Err(CompileError::BadLiteral);
        }
        let d = (b - 48) as i64;
        if acc > 922337203685477580 || (acc == 922337203685477580 && d > 7) {
            proof {
                assert(bytes@.take(i as int + 1).drop_last() =~= bytes@.take(i as int));
                assert(digits_val(bytes@.take(i as int + 1)) == acc * 10 + d);
                if all_digits(bytes@) {
                    lemma_digits_val_prefix_le(bytes@, i as int + 1);
                }
            }
            return Err(CompileError::BadLiteral);
        }
        proof {
            assert(bytes@.take(i as int + 1).drop_last() =~= bytes@.take(i as int));
            assert(digits_val(bytes@.take(i as int + 1)) == acc * 10 + d);
        }
        acc = acc * 10 + d;
        i = i + 1;
    }
    proof {
        assert(bytes@.take(n as int) =~= bytes@);
    }
    Ok(acc)
}

} // verus!
