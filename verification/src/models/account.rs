//! Opaque account identifiers.

use vstd::prelude::*;
use vstd::std_specs::cmp::PartialEqSpecImpl;
use crate::utils::bytes::{bytes_equal, copy_bytes};
use crate::utils::keyed::StoreKey;

verus! {

/// The identifier of an institution or ledger account: an opaque byte
/// string, compared byte for byte.
#[derive(Debug)]
pub struct AccountId {
    pub bytes: Vec<u8>,
}

impl View for AccountId {
    type V = Seq<u8>;

    open spec fn view(&self) -> Seq<u8> {
        self.bytes@
    }
}

impl AccountId {
    /// Wraps raw identifier bytes.
    pub fn new(bytes: Vec<u8>) -> (id: Self)
        ensures
            id@ == bytes@,
    {
        AccountId { bytes }
    }

    /// The raw identifier bytes.
    pub fn as_bytes(&self) -> (bytes: &[u8])
        ensures
            bytes@ == self@,
    {
        self.bytes.as_slice()
    }
}

impl Clone for AccountId {
    fn clone(&self) -> (copy: Self)
        ensures
            copy@ == self@,
    {
        AccountId { bytes: copy_bytes(self.bytes.as_slice()) }
    }
}

impl PartialEq for AccountId {
    fn eq(&self, other: &Self) -> (same: bool) {
        bytes_equal(self.bytes.as_slice(), other.bytes.as_slice())
    }
}

impl PartialEqSpecImpl for AccountId {
    open spec fn obeys_eq_spec() -> bool {
        true
    }

    open spec fn eq_spec(&self, other: &Self) -> bool {
        self@ == other@
    }
}

impl StoreKey for AccountId {
    fn same_key(&self, other: &Self) -> (same: bool) {
        *self == *other
    }

    fn copy_key(&self) -> (copy: Self) {
        self.clone()
    }
}

} // verus!
