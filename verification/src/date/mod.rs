//! Dates as the api writes them

pub mod year_or_date;

use vstd::prelude::*;

verus! {

/// `time::Date` is carried through as it is: nothing is known of what it holds.
#[verifier::external_type_specification]
#[verifier::external_body]
pub struct ExDate(time::Date);

/// `time::OffsetDateTime` is carried through as it is: nothing is known of what it holds.
#[verifier::external_type_specification]
#[verifier::external_body]
pub struct ExOffsetDateTime(time::OffsetDateTime);

/// `OffsetDateTime` is `Copy`: its clone is the value itself.
pub assume_specification[ <time::OffsetDateTime as Clone>::clone ](
    value: &time::OffsetDateTime,
) -> (copy: time::OffsetDateTime)
    ensures
        copy == *value,
;

} // verus!
