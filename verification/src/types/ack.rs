//! Acknowledgement of a previously sent message, by its correlation id.
use vstd::prelude::*;

use vstd::string::StringSliceAdditionalSpecFns;
use vstd::utf8::encode_utf8;

use crate::text::bool_text;
use crate::text::dec_digits;
use crate::text::push_bool;
use crate::text::push_dec_u32;
use crate::text::push_str;

verus! {

/// Bidirectional acknowledgement record.
#[derive(Clone, Copy, Debug, PartialEq, Eq, Structural)]
pub struct Ack {
    pub id: u32,
    pub rx_id: u32,
    pub status: bool,
}

/// Mathematical model of an [`Ack`] record.
pub ghost struct AckV {
    pub id: u32,
    pub rx_id: u32,
    pub status: bool,
}

impl View for Ack {
    type V = AckV;

    open spec fn view(&self) -> AckV {
        AckV { id: self.id, rx_id: self.rx_id, status: self.status }
    }
}

impl AckV {
    /// Field bounds that hold of every constructible record.
    pub open spec fn wf(self) -> bool {
        true
    }
}

impl Ack {
    /// Builds an acknowledgement of the message with id `rx_id`.
    pub fn new(id: u32, rx_id: u32, status: bool) -> (r: Ack)
        ensures
            r@ == (AckV { id, rx_id, status }),
    {
        Ack { id, rx_id, status }
    }
}


/// Diagnostic line for an acknowledgement record.
pub open spec fn ack_text(v: AckV) -> Seq<u8> {
    "[".spec_bytes() + dec_digits(v.id as nat) + "] Ack: rx_id=".spec_bytes() + dec_digits(
        v.rx_id as nat,
    ) + " status=".spec_bytes() + bool_text(v.status)
}

/// Debug text of an acknowledgement record, field names included.
pub open spec fn ack_debug_text(v: AckV) -> Seq<u8> {
    "Ack: Ack { id: ".spec_bytes() + dec_digits(v.id as nat) + ", rx_id: ".spec_bytes()
        + dec_digits(v.rx_id as nat) + ", status: ".spec_bytes() + bool_text(v.status)
        + " }".spec_bytes()
}

impl Ack {
    /// One fixed-format diagnostic line for this record.
    pub fn to_text(&self) -> (r: String)
        ensures
            encode_utf8(r@) == ack_text(self@),
    {
        let mut out = String::new();
        push_str(&mut out, "[");
        push_dec_u32(&mut out, self.id);
        push_str(&mut out, "] Ack: rx_id=");
        push_dec_u32(&mut out, self.rx_id);
        push_str(&mut out, " status=");
        push_bool(&mut out, self.status);
        proof {
            assert(encode_utf8(out@) =~= ack_text(self@));
        }
        out
    }

    /// Debug rendering of this record, field names included.
    pub fn debug(&self) -> (r: String)
        ensures
            encode_utf8(r@) == ack_debug_text(self@),
    {
        let mut out = String::new();
        push_str(&mut out, "Ack: Ack { id: ");
        push_dec_u32(&mut out, self.id);
        push_str(&mut out, ", rx_id: ");
        push_dec_u32(&mut out, self.rx_id);
        push_str(&mut out, ", status: ");
        push_bool(&mut out, self.status);
        push_str(&mut out, " }");
        proof {
            assert(encode_utf8(out@) =~= ack_debug_text(self@));
        }
        out
    }
}

} // verus!
