//! A six-digit one-time code for the second login factor.

use rand::Rng;
use vstd::prelude::*;

verus! {

use crate::decimal::{
    all_digits,
    decimal_text,
    digits_value,
    int_text,
    is_digit,
    lemma_decimal_text,
    lemma_decimal_text_len,
    lemma_pow10_monotone,
    lemma_pow10_six,
    read_digits,
    u32_to_decimal,
};
use crate::errors::ValidationError;

pub const LOW_RANGE_VALUE: u32 = 100000;

pub const HIGH_RANGE_VALUE: u32 = 999999;

/// What reading a one-time code from text yields: the text itself when it
/// is exactly six decimal digits standing for a value in range,
/// `OutOfRangeCode` when it is six digits out of range (a leading zero), and
/// `MalformedCode` otherwise.
pub open spec fn code_outcome(s: Seq<char>) -> Result<Seq<char>, ValidationError> {
    if s.len() != 6 || !all_digits(s) {
        Err(ValidationError::MalformedCode)
    } else if LOW_RANGE_VALUE <= digits_value(s) && digits_value(s) <= HIGH_RANGE_VALUE {
        Ok(s)
    } else {
        Err(ValidationError::OutOfRangeCode)
    }
}

/// The decimal text of a number in `[100000, 999999]` is a valid code.
pub proof fn lemma_code_of_value(v: nat)
    requires
        LOW_RANGE_VALUE <= v <= HIGH_RANGE_VALUE,
    ensures
        code_outcome(decimal_text(v)) == Ok::<Seq<char>, ValidationError>(decimal_text(v)),
{
    lemma_decimal_text(v);
    lemma_decimal_text_len(v);
    lemma_pow10_six();
    let l = decimal_text(v).len();
    if l <= 5 {
        lemma_pow10_monotone(l, 5);
    }
    if l >= 7 {
        lemma_pow10_monotone(6, (l - 1) as nat);
    }
}

/// The decimal text of an integer is a valid one-time code exactly when the
/// integer lies in `[100000, 999999]`.
pub proof fn lemma_code_accepts_exactly_range(n: int)
    ensures
        code_outcome(int_text(n)) is Ok <==> LOW_RANGE_VALUE <= n <= HIGH_RANGE_VALUE,
{
    if n < 0 {
        let s = int_text(n);
        assert(s[0] == '-');
        assert(!is_digit(s[0]));
    } else {
        lemma_decimal_text(n as nat);
        if LOW_RANGE_VALUE <= n <= HIGH_RANGE_VALUE {
            lemma_code_of_value(n as nat);
        }
    }
}

/// Relies on rand's `Rng::gen_range` on an inclusive range of the thread-local
/// generator: the value lies in the range.
#[verifier::external_body]
fn random_in_range(low: u32, high: u32) -> (r: u32)
    requires
        low <= high,
    ensures
        low <= r <= high,
{
    rand::thread_rng().gen_range(low..=high)
}

#[derive(Debug, PartialEq, Eq)]
pub struct TwoFACode {
    value: String,
}

impl View for TwoFACode {
    type V = Seq<char>;

    closed spec fn view(&self) -> Seq<char> {
        self.value@
    }
}

impl TwoFACode {
    #[verifier::type_invariant]
    closed spec fn inv(&self) -> bool {
        code_outcome(self.value@) is Ok
    }

    /// Accepts exactly six decimal digits standing for a value in
    /// `[100000, 999999]`, and keeps the text.
    pub fn parse(code: String) -> (r: Result<TwoFACode, ValidationError>)
        ensures
            match r {
                Ok(c) => code_outcome(code@) == Ok::<Seq<char>, ValidationError>(c@),
                Err(e) => code_outcome(code@) == Err::<Seq<char>, ValidationError>(e),
            },
    {
        if code.as_str().unicode_len() != 6 {
            return Err(ValidationError::MalformedCode);
        }
        match read_digits(code.as_str()) {
            None => Err(ValidationError::MalformedCode),
            Some(v) => {
                if LOW_RANGE_VALUE <= v && v <= HIGH_RANGE_VALUE {
                    Ok(TwoFACode { value: code })
                } else {
                    Err(ValidationError::OutOfRangeCode)
                }
            },
        }
    }

    /// A fresh code: the decimal text of a number drawn uniformly from
    /// `[100000, 999999]`.
    pub fn generate() -> (r: TwoFACode)
        ensures
            exists|v: u32| LOW_RANGE_VALUE <= v <= HIGH_RANGE_VALUE && r@ == decimal_text(v as nat),
            code_outcome(r@) is Ok,
    {
        let v = random_in_range(LOW_RANGE_VALUE, HIGH_RANGE_VALUE);
        let text = u32_to_decimal(v);
        proof {
            lemma_code_of_value(v as nat);
        }
        TwoFACode { value: text }
    }

    pub fn as_str(&self) -> (r: &str)
        ensures
            r@ == self@,
    {
        self.value.as_str()
    }

    /// A second code with the same text.
    pub fn copied(&self) -> (r: TwoFACode)
        ensures
            r@ == self@,
    {
        proof {
            use_type_invariant(self);
        }
        TwoFACode { value: self.value.clone() }
    }
}

impl Default for TwoFACode {
    fn default() -> (r: TwoFACode)
        ensures
            exists|v: u32| LOW_RANGE_VALUE <= v <= HIGH_RANGE_VALUE && r@ == decimal_text(v as nat),
            code_outcome(r@) is Ok,
    {
        TwoFACode::generate()
    }
}

} // verus!
