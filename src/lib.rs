use vstd::prelude::*;

pub mod address;
pub mod attributes;
pub mod body;
pub mod broker;
pub mod bytes;
pub mod client;
pub mod context;
pub mod error;
pub mod header;
pub mod laws;
pub mod message;
pub mod seal;
pub mod stun_serde;
pub mod trusted;

verus! {

pub fn add(left: usize, right: usize) -> (r: usize)
    requires
        left + right <= usize::MAX,
    ensures
        r == left + right,
{
    left + right
}

/// Whether two byte vectors hold the same bytes.
pub fn two_vector_are_identical(v1: Vec<u8>, v2: Vec<u8>) -> (r: bool)
    ensures
        r == (v1@ == v2@),
{
    bytes::same_bytes(v1.as_slice(), v2.as_slice())
}

} // verus!
