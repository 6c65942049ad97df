//! Calendar dates, as `chrono` represents them.

use vstd::prelude::*;

verus! {

/// `chrono::NaiveDate`, a calendar date without a time of day or a time zone.
/// The model only stores such dates and hands them back: nothing is claimed
/// about what a value holds.
#[verifier::external_type_specification]
#[verifier::external_body]
pub struct ExNaiveDate(chrono::NaiveDate);

} // verus!
