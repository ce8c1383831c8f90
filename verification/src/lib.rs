//! Check-digit validation for UPC barcodes.
//!
//! A UPC code is a fixed-length sequence of decimal digits together with a
//! single check digit. [`Upc::check`] reports whether the check digit agrees
//! with the weighted modulo-10 checksum of the payload, after confirming that
//! every digit lies in the decimal range `0..=9`.

use vstd::prelude::*;

verus! {

/// Possible errors for [`Upc`]-based checking.
#[derive(Debug, PartialEq, Clone)]
pub enum UpcError {
    /// A payload digit lies outside 0-9 (not a single decimal digit).
    UpcOverflow,
    /// The check digit lies outside 0-9 (not a single decimal digit).
    CheckDigitOverflow,
}

/// The supported UPC standards, each carrying its fixed-length payload of
/// `i8` digits. The check digit is kept separate, in [`Upc`].
#[derive(Debug, PartialEq, Clone)]
pub enum Standard {
    /// An 11-digit UPC-A payload.
    UpcA([i8; 11]),
    /// A 7-digit UPC-E payload.
    UpcE([i8; 7]),
}

/// Main UPC structure containing the base UPC code alongside its check digit.
///
/// Every payload digit and the check digit must lie in `0..=9`; anything else
/// makes [`Upc::check`] report an error rather than a verdict.
#[derive(Debug, PartialEq, Clone)]
pub struct Upc {
    /// UPC standard conformed to.
    pub upc: Standard,
    /// Check digit for verification.
    pub check_digit: i8,
}

/// A single decimal digit: a value in `0..=9`.
pub open spec fn is_digit(d: i8) -> bool {
    0 <= d <= 9
}

/// Every element of the sequence is a decimal digit.
pub open spec fn all_digits(s: Seq<i8>) -> bool {
    forall|i: int| 0 <= i < s.len() ==> is_digit(s[i])
}

/// Sum of the even-valued digits of the sequence.
///
/// The partition is by the digit's own value, not by its position: that is
/// the rule this library implements and tests.
pub open spec fn even_digit_sum(s: Seq<i8>) -> int
    decreases s.len(),
{
    if s.len() == 0 {
        0
    } else {
        even_digit_sum(s.drop_last()) + if s.last() % 2 == 0 {
            s.last() as int
        } else {
            0
        }
    }
}

/// Sum of the odd-valued digits of the sequence.
pub open spec fn odd_digit_sum(s: Seq<i8>) -> int
    decreases s.len(),
{
    if s.len() == 0 {
        0
    } else {
        odd_digit_sum(s.drop_last()) + if s.last() % 2 != 0 {
            s.last() as int
        } else {
            0
        }
    }
}

/// The weighted modulo-10 total of a payload: odd-digit sum times three,
/// plus the even-digit sum, reduced modulo 10.
pub open spec fn weighted_total(s: Seq<i8>) -> int {
    (odd_digit_sum(s) * 3 + even_digit_sum(s)) % 10
}

/// The check digit that the weighted total calls for: 0 when the total is 0,
/// otherwise its distance to the next multiple of 10.
pub open spec fn expected_check_digit(s: Seq<i8>) -> int {
    if weighted_total(s) == 0 {
        0
    } else {
        10 - weighted_total(s)
    }
}

impl Upc {
    /// The payload digits, as a sequence, whichever standard carries them.
    pub open spec fn digits(self) -> Seq<i8> {
        match self.upc {
            Standard::UpcA(a) => a@,
            Standard::UpcE(a) => a@,
        }
    }

    /// The outcome of range validation: the payload digits are examined
    /// first, then the check digit.
    pub open spec fn spec_validate(self) -> Result<(), UpcError> {
        if !all_digits(self.digits()) {
            Err(UpcError::UpcOverflow)
        } else if !is_digit(self.check_digit) {
            Err(UpcError::CheckDigitOverflow)
        } else {
            Ok(())
        }
    }

    /// The outcome of [`Upc::check`]: an error when some digit is out of
    /// range, otherwise whether the check digit equals the expected one.
    pub open spec fn spec_check(self) -> Result<bool, UpcError> {
        match self.spec_validate() {
            Err(e) => Err(e),
            Ok(()) => Ok(self.check_digit == expected_check_digit(self.digits())),
        }
    }

    /// Checks the given UPC code against its check digit.
    ///
    /// Returns `Ok(true)` exactly when every digit is in range and the check
    /// digit matches the weighted modulo-10 checksum of the payload,
    /// `Ok(false)` when every digit is in range but the check digit does not
    /// match, and the first range error otherwise.
    pub fn check(&self) -> (r: Result<bool, UpcError>)
        ensures
            r == self.spec_check(),
    {
        match self.validate_upc_overflow() {
            Ok(()) => (),
            Err(e) => {
                return Err(e);
            },
        }

        let (even_nums, odd_nums) = self.split_upc_even_odd();

        let total: u16 = ((odd_nums * 3) + even_nums) % 10;

        if (total == 0 && self.check_digit == 0) || (10 - total == self.check_digit as u16) {
            Ok(true)
        } else {
            Ok(false)
        }
    }

    /// Converts any defined standard given in [`Standard`] to an `i8` slice
    /// and returns it.
    fn get_upc_slice(&self) -> (r: &[i8])
        ensures
            r@ == self.digits(),
    {
        match &self.upc {
            Standard::UpcA(a) => a.as_slice(),
            Standard::UpcE(a) => a.as_slice(),
        }
    }

    /// Validates that every payload digit and the check digit are single
    /// decimal digits, reporting the first violation found.
    fn validate_upc_overflow(&self) -> (r: Result<(), UpcError>)
        ensures
            r == self.spec_validate(),
    {
        let s = self.get_upc_slice();
        let mut i: usize = 0;
        while i < s.len()
            invariant
                i <= s@.len(),
                s@ == self.digits(),
                forall|j: int| 0 <= j < i ==> is_digit(s@[j]),
            decreases s@.len() - i,
        {
            if !is_1_digit(s[i]) {
                return Err(UpcError::UpcOverflow);
            }
            i += 1;
        }
        if !is_1_digit(self.check_digit) {
            return Err(UpcError::CheckDigitOverflow);
        }
        Ok(())
    }

    /// Splits the payload digits by their own parity into a pair of sums,
    /// `(even, odd)`.
    fn split_upc_even_odd(&self) -> (r: (u16, u16))
        requires
            all_digits(self.digits()),
        ensures
            r.0 == even_digit_sum(self.digits()),
            r.1 == odd_digit_sum(self.digits()),
            r.0 <= 9 * self.digits().len(),
            r.1 <= 9 * self.digits().len(),
    {
        let s = self.get_upc_slice();
        let mut even_odd: (u16, u16) = (0, 0);
        let mut i: usize = 0;

        assert(s@.take(0) =~= Seq::<i8>::empty());
        while i < s.len()
            invariant
                i <= s@.len(),
                s@ == self.digits(),
                s@.len() <= 11,
                all_digits(s@),
                even_odd.0 == even_digit_sum(s@.take(i as int)),
                even_odd.1 == odd_digit_sum(s@.take(i as int)),
                even_odd.0 <= 9 * i,
                even_odd.1 <= 9 * i,
            decreases s@.len() - i,
        {
            let code = s[i];
            proof {
                let t = s@.take(i + 1);
                assert(t.drop_last() =~= s@.take(i as int));
                assert(t.last() == s@[i as int]);
            }
            if code % 2 == 0 {
                even_odd.0 += code as u16;
            } else {
                even_odd.1 += code as u16;
            }
            i += 1;
        }
        assert(s@.take(i as int) =~= s@);
        even_odd
    }
}

/// Checks whether a given `i8` is one digit (0-9) wide.
fn is_1_digit(digit: i8) -> (r: bool)
    ensures
        r == is_digit(digit),
{
    !(digit < 0 || digit > 9)
}

/// A code whose payload digits and check digit all lie in 0-9 always gets a
/// definite yes-or-no verdict, never an error.
pub proof fn lemma_in_range_never_errs(code: Upc)
    requires
        all_digits(code.digits()),
        is_digit(code.check_digit),
    ensures
        code.spec_check() == Ok::<bool, UpcError>(
            code.check_digit == expected_check_digit(code.digits()),
        ),
{
}

/// A code with some payload digit outside 0-9 is reported as a payload
/// overflow, whatever the check digit holds.
pub proof fn lemma_payload_overflow(code: Upc)
    requires
        !all_digits(code.digits()),
    ensures
        code.spec_check() == Err::<bool, UpcError>(UpcError::UpcOverflow),
{
}

/// A code whose payload digits all lie in 0-9 but whose check digit does not
/// is reported as a check-digit overflow.
pub proof fn lemma_check_digit_overflow(code: Upc)
    requires
        all_digits(code.digits()),
        !is_digit(code.check_digit),
    ensures
        code.spec_check() == Err::<bool, UpcError>(UpcError::CheckDigitOverflow),
{
}

/// Checking is deterministic: the verdict is a function of the code and its
/// check digit alone, so equal inputs get equal verdicts.
pub proof fn lemma_check_deterministic(first: Upc, second: Upc)
    requires
        first == second,
    ensures
        first.spec_check() == second.spec_check(),
{
}

} // verus!
