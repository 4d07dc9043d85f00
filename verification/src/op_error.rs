//! A placeholder packet for content the codec does not parse. It never
//! reaches the wire: encoding yields an empty buffer, and decoding accepts
//! anything while keeping none of it.

use vstd::prelude::*;

verus! {

/// The placeholder packet.
#[derive(Debug, Clone, PartialEq, Eq)]
pub struct OpError {
    pub code: String,
}

impl OpError {
    /// A fresh placeholder with an empty code.
    pub fn new() -> (r: OpError)
        ensures
            r.code@ == Seq::<char>::empty(),
    {
        OpError { code: String::new() }
    }

    /// Encodes to nothing: a placeholder has no wire image.
    pub fn serialize(&self) -> (r: Vec<u8>)
        ensures
            r@ == Seq::<u8>::empty(),
    {
        let data: Vec<u8> = Vec::new();
        data
    }

    /// Accepts any buffer and keeps none of it: always a fresh
    /// placeholder.
    pub fn deserialize(_data: &Vec<u8>) -> (r: Option<OpError>)
        ensures
            r matches Some(p) && p.code@ == Seq::<char>::empty(),
    {
        let rv = OpError::new();
        Some(rv)
    }
}

} // verus!
