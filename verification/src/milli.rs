use vstd::prelude::*;
use crate::json::milli_str;
use crate::json::milli_to_string;

verus! {

/// A fixed-point number counted in thousandths. The sampling controls of a
/// completion request (temperature, nucleus-sampling probability, the two
/// penalties, logit-bias weights) are fractional values with short decimal
/// ranges; holding them in thousandths keeps their validation and their wire
/// rendering exact. `Milli { thousandths: 800 }` stands for 0.800.
#[derive(Clone, Copy, Debug, PartialEq, Eq, Structural)]
pub struct Milli {
    pub thousandths: i32,
}

impl Milli {
    pub fn new(thousandths: i32) -> (r: Milli)
        ensures
            r.thousandths == thousandths,
    {
        Milli { thousandths }
    }

    /// The wire rendering: a decimal number with three digits after the
    /// point, e.g. `0.800` or `-1.250`.
    pub fn to_decimal_string(&self) -> (r: String)
        ensures
            r@ == milli_str(self.thousandths as int),
    {
        milli_to_string(self.thousandths)
    }
}

} // verus!
