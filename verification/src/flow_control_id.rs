//! Flow control ids: opaque tokens, each naming one logical flow.

use vstd::prelude::*;
use crate::address::{bytes_eq, copy_bytes};

verus! {

/// Number of random bytes in a freshly generated flow control id.
pub const FLOW_CONTROL_ID_LEN: usize = 16;

/// Opaque token naming one logical flow.
///
/// A freshly generated id holds sixteen bytes drawn from a
/// cryptographically strong random source, so two generated ids are
/// distinct with overwhelming probability and an id cannot be guessed
/// by an attacker. Ids are compared by value.
#[derive(Debug)]
pub struct FlowControlId {
    bytes: Vec<u8>,
}

impl View for FlowControlId {
    type V = Seq<u8>;

    closed spec fn view(&self) -> Seq<u8> {
        self.bytes@
    }
}

impl FlowControlId {
    /// Makes the id whose token is `bytes`.
    pub fn new(bytes: Vec<u8>) -> (r: FlowControlId)
        ensures
            r@ == bytes@,
    {
        FlowControlId { bytes }
    }

    /// The bytes of the token.
    pub fn as_bytes(&self) -> (r: &Vec<u8>)
        ensures
            r@ == self@,
    {
        &self.bytes
    }
}

impl Clone for FlowControlId {
    fn clone(&self) -> (r: FlowControlId)
        ensures
            r@ == self@,
    {
        FlowControlId { bytes: copy_bytes(&self.bytes) }
    }
}

impl PartialEq for FlowControlId {
    fn eq(&self, other: &FlowControlId) -> (r: bool) {
        bytes_eq(&self.bytes, &other.bytes)
    }
}

impl vstd::std_specs::cmp::PartialEqSpecImpl for FlowControlId {
    open spec fn obeys_eq_spec() -> bool {
        true
    }

    open spec fn eq_spec(&self, other: &FlowControlId) -> bool {
        self@ == other@
    }
}

} // verus!
