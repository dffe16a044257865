//! Outside types that the library's records carry through unchanged.

use vstd::prelude::*;
use uuid::Uuid;

verus! {

/// `uuid::Uuid`, carried as an opaque value.
#[verifier::external_type_specification]
#[verifier::external_body]
pub struct ExUuid(Uuid);

/// `Uuid::clone`: `Uuid` derives `Clone` together with `Copy`, so a clone
/// is the same value.
pub assume_specification[ <Uuid as Clone>::clone ](u: &Uuid) -> (r: Uuid)
    ensures
        r == *u,
;

} // verus!
