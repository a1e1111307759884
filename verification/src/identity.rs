//! Content identities.
//!
//! Every decoded resource is identified by an identity assigned at
//! construction time, independent of the resource's byte content: decoding
//! identical bytes twice yields two distinct identities.

use vstd::prelude::*;

verus! {

/// Relies on `uuid::Uuid::new_v4` for a freshly generated identifier,
/// carried as its 128-bit value. Nothing is promised of the value: it is
/// random. Like an allocation failure, the call aborts the process only
/// in the environmental case that the operating system's random source
/// fails.
#[verifier::external_body]
pub(crate) fn fresh_uuid() -> u128 {
    uuid::Uuid::new_v4().as_u128()
}

} // verus!
