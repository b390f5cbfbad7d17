//! Bounded message payload: a byte buffer whose length never exceeds
//! [`crate::MAX_DATA_LEN`]. The bound is established at construction and
//! holds for every value of the type.
use vstd::prelude::*;

use crate::types::msg::MsgError;
use crate::MAX_DATA_LEN;

verus! {

/// A byte payload of at most [`crate::MAX_DATA_LEN`] bytes.
#[derive(Debug, PartialEq, Eq)]
pub struct Data {
    bytes: Vec<u8>,
}

impl View for Data {
    type V = Seq<u8>;

    closed spec fn view(&self) -> Seq<u8> {
        self.bytes@
    }
}

impl Clone for Data {
    fn clone(&self) -> (res: Self)
        ensures
            res@ == self@,
    {
        proof {
            use_type_invariant(self);
        }
        let bytes = self.bytes.clone();
        proof {
            assert(bytes@ =~= self.bytes@);
        }
        Data { bytes }
    }
}

impl Data {
    /// Every payload respects the capacity bound.
    #[verifier::type_invariant]
    pub open spec fn capacity_ok(self) -> bool {
        self@.len() <= MAX_DATA_LEN
    }

    /// Wraps a byte buffer as a payload; fails with a capacity error when
    /// the buffer is longer than [`crate::MAX_DATA_LEN`], and never
    /// truncates.
    pub fn from_vec(bytes: Vec<u8>) -> (r: Result<Data, MsgError>)
        ensures
            bytes@.len() <= MAX_DATA_LEN ==> (r matches Ok(d) && d@ == bytes@),
            bytes@.len() > MAX_DATA_LEN ==> r == Err::<Data, MsgError>(MsgError::CapacityError),
    {
        if bytes.len() <= MAX_DATA_LEN {
            Ok(Data { bytes })
        } else {
            Err(MsgError::CapacityError)
        }
    }

    /// The empty payload.
    pub fn empty() -> (r: Data)
        ensures
            r@ == Seq::<u8>::empty(),
    {
        let bytes: Vec<u8> = Vec::new();
        proof {
            assert(bytes@ =~= Seq::<u8>::empty());
        }
        Data { bytes }
    }

    /// Number of payload bytes.
    pub fn len(&self) -> (r: usize)
        ensures
            r == self@.len(),
    {
        self.bytes.len()
    }

    /// The payload bytes.
    pub fn as_slice(&self) -> (r: &[u8])
        ensures
            r@ == self@,
    {
        self.bytes.as_slice()
    }

    /// The byte at position `i`.
    pub fn get(&self, i: usize) -> (r: u8)
        requires
            i < self@.len(),
        ensures
            r == self@[i as int],
    {
        self.bytes[i]
    }
}

} // verus!
