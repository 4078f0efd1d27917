use vstd::prelude::*;

use crate::messages::RequestId;

verus! {

/// Relies on uuid::Uuid::new_v4 and uuid::Uuid::as_u128: a random version-4
/// UUID as an integer. Nothing is promised of its value.
#[verifier::external_body]
pub(crate) fn fresh_request_id() -> (r: RequestId) {
    uuid::Uuid::new_v4().as_u128()
}

} // verus!
