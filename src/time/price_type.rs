//! The decimal scale of a price held as an integer.
use vstd::prelude::*;

verus! {

/// The fewest decimal digits a price scale has.
pub const DIGIT_MIN: i8 = -2;

/// The most decimal digits a price scale has.
pub const DIGIT_MAX: i8 = 6;

/// How many decimal digits an integer price carries, from -2 to 6.
#[derive(Debug, Clone, Copy, Default, PartialEq, Eq, Structural)]
pub struct PriceType(i8);

impl PriceType {
    pub closed spec fn spec_digits(&self) -> i8 {
        self.0
    }

    /// A scale of `ndig` digits, clamped to the range.
    pub fn new(ndig: i8) -> (r: PriceType)
        ensures
            r.digits() == if ndig < DIGIT_MIN {
                DIGIT_MIN
            } else if ndig > DIGIT_MAX {
                DIGIT_MAX
            } else {
                ndig
            },
    {
        if ndig < DIGIT_MIN {
            PriceType(DIGIT_MIN)
        } else if ndig > DIGIT_MAX {
            PriceType(DIGIT_MAX)
        } else {
            PriceType(ndig)
        }
    }

    /// The count of decimal digits.
    #[verifier::when_used_as_spec(spec_digits)]
    pub fn digits(&self) -> (r: i8)
        ensures
            r == self.spec_digits(),
    {
        self.0
    }
}

} // verus!
