//! Decision logic of a small time-value-of-money toolkit, verified.
//!
//! The toolkit's quantities are IEEE-754 doubles, and their arithmetic -
//! discounting, compounding, the Newton-Raphson update - is floating point,
//! which stays outside this library with its caller. What the library holds,
//! and verifies, is every decision taken over those quantities: the root
//! search's convergence test and iteration budget ([`roots`]), the payback
//! period's zero test and recovery scan ([`payback`]), the comparison
//! semantics of doubles read off their bit patterns ([`double`]), and the
//! period-unit multiplier of the amortization payment. Callers hand in each
//! computed double as its bit pattern and act on the decisions handed back.

pub mod double;
pub mod payback;
pub mod roots;

use vstd::prelude::*;

use crate::double::Double;
use crate::double::ONE_BITS;
use crate::double::TWELVE_BITS;

verus! {

/// The unit in which a loan's period count is stated.
#[derive(Clone, Copy, PartialEq, Eq, Structural, Debug)]
pub enum AmortizationPeriod {
    Month,
    Year,
}

/// How many months each stated period contains, as the bits of the double
/// the payment formula multiplies by: 1.0 per month, 12.0 per year.
pub open spec fn period_multiplier_of(period: AmortizationPeriod) -> u64 {
    match period {
        AmortizationPeriod::Month => ONE_BITS,
        AmortizationPeriod::Year => TWELVE_BITS,
    }
}

/// The multiplier that turns a period count into a month count: 1.0 for
/// monthly periods, 12.0 for yearly ones.
pub fn period_multiplier(period: AmortizationPeriod) -> (m: Double)
    ensures
        m.bits == period_multiplier_of(period),
{
    match period {
        AmortizationPeriod::Month => Double::from_bits(ONE_BITS),
        AmortizationPeriod::Year => Double::from_bits(TWELVE_BITS),
    }
}

} // verus!
