//! Hub-to-server handshake record announcing the hub's own address,
//! channel and software versions.
use vstd::prelude::*;

use vstd::string::StringSliceAdditionalSpecFns;
use vstd::utf8::encode_utf8;

use crate::format_mac::format_mac;
use crate::format_mac::spec_format_mac;
use crate::text::byte_array_text;
use crate::text::dec_digits;
use crate::text::push_byte_array;
use crate::text::push_dec_u32;
use crate::text::push_str;

verus! {

/// Hub-to-server handshake record.
#[derive(Clone, Copy, Debug, PartialEq, Eq)]
pub struct InitConfig {
    pub id: u32,
    pub api_version: u32,
    pub now_version: u32,
    pub channel: u8,
    pub address: [u8; 6],
}

/// Mathematical model of an [`InitConfig`] record.
pub ghost struct InitConfigV {
    pub id: u32,
    pub api_version: u32,
    pub now_version: u32,
    pub channel: u8,
    pub address: Seq<u8>,
}

impl View for InitConfig {
    type V = InitConfigV;

    open spec fn view(&self) -> InitConfigV {
        InitConfigV {
            id: self.id,
            api_version: self.api_version,
            now_version: self.now_version,
            channel: self.channel,
            address: self.address@,
        }
    }
}

impl InitConfigV {
    /// Field bounds that hold of every constructible record.
    pub open spec fn wf(self) -> bool {
        self.address.len() == 6
    }
}

impl InitConfig {
    /// Builds a handshake record.
    pub fn new(id: u32, api_version: u32, now_version: u32, channel: u8, address: [u8; 6]) -> (r:
        InitConfig)
        ensures
            r@ == (InitConfigV { id, api_version, now_version, channel, address: address@ }),
    {
        InitConfig { id, api_version, now_version, channel, address }
    }
}


/// Diagnostic line for a handshake record.
pub open spec fn init_config_text(v: InitConfigV) -> Seq<u8> {
    "[".spec_bytes() + dec_digits(v.id as nat) + "] INIT: address=".spec_bytes() + spec_format_mac(
        v.address,
    ) + " channel=".spec_bytes() + dec_digits(v.channel as nat) + " api_version=".spec_bytes()
        + dec_digits(v.api_version as nat) + " now_version=".spec_bytes() + dec_digits(
        v.now_version as nat,
    )
}

/// Debug text of a handshake record, field names included.
pub open spec fn init_config_debug_text(v: InitConfigV) -> Seq<u8> {
    "InitConfig: InitConfig { id: ".spec_bytes() + dec_digits(v.id as nat)
        + ", api_version: ".spec_bytes() + dec_digits(v.api_version as nat)
        + ", now_version: ".spec_bytes() + dec_digits(v.now_version as nat)
        + ", channel: ".spec_bytes() + dec_digits(v.channel as nat) + ", address: ".spec_bytes()
        + byte_array_text(v.address) + " }".spec_bytes()
}

impl InitConfig {
    /// One fixed-format diagnostic line for this record.
    pub fn to_text(&self) -> (r: String)
        ensures
            encode_utf8(r@) == init_config_text(self@),
    {
        let mut out = String::new();
        push_str(&mut out, "[");
        push_dec_u32(&mut out, self.id);
        push_str(&mut out, "] INIT: address=");
        let mac = format_mac(&self.address);
        push_str(&mut out, mac.as_str());
        push_str(&mut out, " channel=");
        push_dec_u32(&mut out, self.channel as u32);
        push_str(&mut out, " api_version=");
        push_dec_u32(&mut out, self.api_version);
        push_str(&mut out, " now_version=");
        push_dec_u32(&mut out, self.now_version);
        proof {
            assert(encode_utf8(out@) =~= init_config_text(self@));
        }
        out
    }

    /// Debug rendering of this record, field names included.
    pub fn debug(&self) -> (r: String)
        ensures
            encode_utf8(r@) == init_config_debug_text(self@),
    {
        let mut out = String::new();
        push_str(&mut out, "InitConfig: InitConfig { id: ");
        push_dec_u32(&mut out, self.id);
        push_str(&mut out, ", api_version: ");
        push_dec_u32(&mut out, self.api_version);
        push_str(&mut out, ", now_version: ");
        push_dec_u32(&mut out, self.now_version);
        push_str(&mut out, ", channel: ");
        push_dec_u32(&mut out, self.channel as u32);
        push_str(&mut out, ", address: ");
        push_byte_array(&mut out, self.address.as_slice());
        push_str(&mut out, " }");
        proof {
            assert(encode_utf8(out@) =~= init_config_debug_text(self@));
        }
        out
    }
}

} // verus!
