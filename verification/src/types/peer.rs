//! Link-layer peer management records: adding or modifying a peer entry,
//! and naming a peer to remove.
use vstd::prelude::*;

use vstd::string::StringSliceAdditionalSpecFns;
use vstd::utf8::encode_utf8;

use crate::format_mac::format_mac;
use crate::format_mac::spec_format_mac;
use crate::text::bool_text;
use crate::text::byte_array_text;
use crate::text::dec_digits;
use crate::text::opt_text;
use crate::text::push_bool;
use crate::text::push_byte_array;
use crate::text::push_dec_u32;
use crate::text::push_opt_key;
use crate::text::push_opt_u8;
use crate::text::push_str;

verus! {

/// A peer entry to add or modify: the peer's address, an optional local
/// master key, an optional channel, and whether traffic is encrypted.
#[derive(Clone, Copy, Debug, PartialEq, Eq)]
pub struct PeerInfo {
    pub id: u32,
    pub peer_address: [u8; 6],
    pub lmk: Option<[u8; 16]>,
    pub channel: Option<u8>,
    pub encrypt: bool,
}

/// Mathematical model of a [`PeerInfo`] record.
pub ghost struct PeerInfoV {
    pub id: u32,
    pub peer_address: Seq<u8>,
    pub lmk: Option<Seq<u8>>,
    pub channel: Option<u8>,
    pub encrypt: bool,
}

impl View for PeerInfo {
    type V = PeerInfoV;

    open spec fn view(&self) -> PeerInfoV {
        PeerInfoV {
            id: self.id,
            peer_address: self.peer_address@,
            lmk: match self.lmk {
                Some(k) => Some(k@),
                None => None,
            },
            channel: self.channel,
            encrypt: self.encrypt,
        }
    }
}

impl PeerInfoV {
    /// Field bounds that hold of every constructible record.
    pub open spec fn wf(self) -> bool {
        self.peer_address.len() == 6 && (self.lmk matches Some(k) ==> k.len() == 16)
    }
}

impl PeerInfo {
    /// Builds a peer entry record.
    pub fn new(
        id: u32,
        peer_address: [u8; 6],
        lmk: Option<[u8; 16]>,
        channel: Option<u8>,
        encrypt: bool,
    ) -> (r: PeerInfo)
        ensures
            r == (PeerInfo { id, peer_address, lmk, channel, encrypt }),
    {
        PeerInfo { id, peer_address, lmk, channel, encrypt }
    }
}

/// Names the peer entry to remove.
#[derive(Clone, Copy, Debug, PartialEq, Eq)]
pub struct PeerAddress {
    pub id: u32,
    pub address: [u8; 6],
}

/// Mathematical model of a [`PeerAddress`] record.
pub ghost struct PeerAddressV {
    pub id: u32,
    pub address: Seq<u8>,
}

impl View for PeerAddress {
    type V = PeerAddressV;

    open spec fn view(&self) -> PeerAddressV {
        PeerAddressV { id: self.id, address: self.address@ }
    }
}

impl PeerAddressV {
    /// Field bounds that hold of every constructible record.
    pub open spec fn wf(self) -> bool {
        self.address.len() == 6
    }
}

impl PeerAddress {
    /// Builds a peer-removal record.
    pub fn new(id: u32, address: [u8; 6]) -> (r: PeerAddress)
        ensures
            r == (PeerAddress { id, address }),
    {
        PeerAddress { id, address }
    }
}


/// Diagnostic line for a peer entry record.
pub open spec fn peer_info_text(v: PeerInfoV) -> Seq<u8> {
    "[".spec_bytes() + dec_digits(v.id as nat) + "] PeerInfo: address=".spec_bytes()
        + spec_format_mac(v.peer_address) + " lmk=".spec_bytes() + opt_text(
        match v.lmk {
            None => None,
            Some(k) => Some(byte_array_text(k)),
        },
    ) + " channel=".spec_bytes() + opt_text(
        match v.channel {
            None => None,
            Some(c) => Some(dec_digits(c as nat)),
        },
    ) + " encrypt=".spec_bytes() + bool_text(v.encrypt)
}

/// Debug text of a peer entry record, field names included.
pub open spec fn peer_info_debug_text(v: PeerInfoV) -> Seq<u8> {
    "PeerInfo: PeerInfo { id: ".spec_bytes() + dec_digits(v.id as nat)
        + ", peer_address: ".spec_bytes() + byte_array_text(v.peer_address)
        + ", lmk: ".spec_bytes() + opt_text(
        match v.lmk {
            None => None,
            Some(k) => Some(byte_array_text(k)),
        },
    ) + ", channel: ".spec_bytes() + opt_text(
        match v.channel {
            None => None,
            Some(c) => Some(dec_digits(c as nat)),
        },
    ) + ", encrypt: ".spec_bytes() + bool_text(v.encrypt) + " }".spec_bytes()
}

impl PeerInfo {
    /// One fixed-format diagnostic line for this record.
    pub fn to_text(&self) -> (r: String)
        ensures
            encode_utf8(r@) == peer_info_text(self@),
    {
        let mut out = String::new();
        push_str(&mut out, "[");
        push_dec_u32(&mut out, self.id);
        push_str(&mut out, "] PeerInfo: address=");
        let mac = format_mac(&self.peer_address);
        push_str(&mut out, mac.as_str());
        push_str(&mut out, " lmk=");
        push_opt_key(&mut out, &self.lmk);
        push_str(&mut out, " channel=");
        push_opt_u8(&mut out, self.channel);
        push_str(&mut out, " encrypt=");
        push_bool(&mut out, self.encrypt);
        proof {
            assert(encode_utf8(out@) =~= peer_info_text(self@));
        }
        out
    }

    /// Debug rendering of this record, field names included.
    pub fn debug(&self) -> (r: String)
        ensures
            encode_utf8(r@) == peer_info_debug_text(self@),
    {
        let mut out = String::new();
        push_str(&mut out, "PeerInfo: PeerInfo { id: ");
        push_dec_u32(&mut out, self.id);
        push_str(&mut out, ", peer_address: ");
        push_byte_array(&mut out, self.peer_address.as_slice());
        push_str(&mut out, ", lmk: ");
        push_opt_key(&mut out, &self.lmk);
        push_str(&mut out, ", channel: ");
        push_opt_u8(&mut out, self.channel);
        push_str(&mut out, ", encrypt: ");
        push_bool(&mut out, self.encrypt);
        push_str(&mut out, " }");
        proof {
            assert(encode_utf8(out@) =~= peer_info_debug_text(self@));
        }
        out
    }
}

/// Diagnostic line for a peer-removal record.
pub open spec fn peer_address_text(v: PeerAddressV) -> Seq<u8> {
    "[".spec_bytes() + dec_digits(v.id as nat) + "] PEER: address=".spec_bytes() + spec_format_mac(
        v.address,
    )
}

/// Debug text of a peer-removal record, field names included.
pub open spec fn peer_address_debug_text(v: PeerAddressV) -> Seq<u8> {
    "PeerAddress: PeerAddress { id: ".spec_bytes() + dec_digits(v.id as nat)
        + ", address: ".spec_bytes() + byte_array_text(v.address) + " }".spec_bytes()
}

impl PeerAddress {
    /// One fixed-format diagnostic line for this record.
    pub fn to_text(&self) -> (r: String)
        ensures
            encode_utf8(r@) == peer_address_text(self@),
    {
        let mut out = String::new();
        push_str(&mut out, "[");
        push_dec_u32(&mut out, self.id);
        push_str(&mut out, "] PEER: address=");
        let mac = format_mac(&self.address);
        push_str(&mut out, mac.as_str());
        proof {
            assert(encode_utf8(out@) =~= peer_address_text(self@));
        }
        out
    }

    /// Debug rendering of this record, field names included.
    pub fn debug(&self) -> (r: String)
        ensures
            encode_utf8(r@) == peer_address_debug_text(self@),
    {
        let mut out = String::new();
        push_str(&mut out, "PeerAddress: PeerAddress { id: ");
        push_dec_u32(&mut out, self.id);
        push_str(&mut out, ", address: ");
        push_byte_array(&mut out, self.address.as_slice());
        push_str(&mut out, " }");
        proof {
            assert(encode_utf8(out@) =~= peer_address_debug_text(self@));
        }
        out
    }
}

} // verus!
