//! Unique identifiers for tasks, checkpoints and recorded transitions.

use vstd::prelude::*;

verus! {

#[verifier::external_type_specification]
#[verifier::external_body]
pub struct ExUuid(uuid::Uuid);

/// `uuid::Uuid::new_v4()`: a fresh random identifier. It is random, so
/// nothing is stated of it.
#[verifier::external_body]
pub fn new_uuid() -> (r: uuid::Uuid) {
    uuid::Uuid::new_v4()
}

} // verus!
