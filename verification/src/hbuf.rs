//! Trusted boundary to the fixed-capacity vector of the `heapless` crate,
//! which carries encoded messages in allocation-free deployments.
use vstd::prelude::*;

use crate::MAX_MSG_LENGTH;

verus! {

/// A fixed-capacity encoding buffer: a `heapless` vector of at most
/// [`crate::MAX_MSG_LENGTH`] bytes. The buffer itself is opaque here; its
/// contents are reached through [`hvec_bytes`].
#[verifier::external_body]
pub struct MsgBuf {
    inner: heapless::Vec<u8, MAX_MSG_LENGTH>,
}

/// The bytes held by a fixed-capacity encoding buffer.
pub uninterp spec fn hvec_bytes(v: MsgBuf) -> Seq<u8>;

/// Relies on `heapless::Vec::from_slice`: with the slice no longer than
/// the buffer's capacity, it returns a vector holding exactly the slice's
/// bytes.
#[verifier::external_body]
pub(crate) fn hvec_from_slice(s: &[u8]) -> (r: MsgBuf)
    requires
        s@.len() <= MAX_MSG_LENGTH,
    ensures
        hvec_bytes(r) == s@,
{
    match heapless::Vec::from_slice(s) {
        Ok(v) => MsgBuf { inner: v },
        Err(_) => MsgBuf { inner: heapless::Vec::new() },
    }
}

impl MsgBuf {
    /// Relies on `heapless::Vec::as_slice`: it views the vector's bytes.
    #[verifier::external_body]
    pub fn as_slice(&self) -> (r: &[u8])
        ensures
            r@ == hvec_bytes(*self),
    {
        self.inner.as_slice()
    }

    /// Relies on `heapless::Vec::len`: the count of bytes held.
    #[verifier::external_body]
    pub fn len(&self) -> (r: usize)
        ensures
            r == hvec_bytes(*self).len(),
    {
        self.inner.len()
    }
}

} // verus!
