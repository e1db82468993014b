//! The system clock.

use vstd::prelude::*;

verus! {

/// `chrono::Utc::now` followed by `chrono::DateTime::timestamp`: the
/// current instant in whole seconds since 1970-01-01T00:00:00Z. Nothing is
/// claimed of the value: it is whatever the system clock says. The call
/// stops the program if the system clock is set before 1970.
#[verifier::external_body]
pub(crate) fn unix_now() -> i64 {
    chrono::Utc::now().timestamp()
}

} // verus!
