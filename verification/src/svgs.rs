//! A cheap-to-clone SVG container: the document's bytes plus a content
//! identity for cache lookup.

use vstd::prelude::*;
use crate::identity::fresh_uuid;

verus! {

/// A parsed-later SVG document: its bytes and its content identity.
#[derive(Debug, Clone)]
pub struct CacheableSvg {
    pub bytes: Vec<u8>,
    pub uuid: u128,
}

impl CacheableSvg {
    /// Wraps the given bytes under a fresh content identity.
    pub fn new(bytes: Vec<u8>) -> (r: Self)
        ensures
            r.bytes@ == bytes@,
    {
        Self { bytes, uuid: fresh_uuid() }
    }

    /// Copies the given bytes under a fresh content identity.
    pub fn new_cloned(bytes: &[u8]) -> (r: Self)
        ensures
            r.bytes@ == bytes@,
    {
        Self::new(vstd::slice::slice_to_vec(bytes))
    }

    /// The SVG document's bytes.
    pub fn bytes(&self) -> (r: &Vec<u8>)
        ensures
            r@ == self.bytes@,
    {
        &self.bytes
    }

    /// The content identity assigned at construction time.
    pub fn uuid(&self) -> (r: u128)
        ensures
            r == self.uuid,
    {
        self.uuid
    }
}

} // verus!
