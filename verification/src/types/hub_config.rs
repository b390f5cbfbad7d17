//! Server-to-hub configuration record. Every field except the id is
//! optional; an absent field means "leave unchanged".
use vstd::prelude::*;

use crate::types::rate::WifiPhyRate;

use vstd::string::StringSliceAdditionalSpecFns;
use vstd::utf8::encode_utf8;

use crate::text::byte_array_text;
use crate::text::dec_digits;
use crate::text::opt_text;
use crate::text::push_dec_u32;
use crate::text::push_opt_key;
use crate::text::push_opt_rate;
use crate::text::push_opt_u16;
use crate::text::push_opt_u8;
use crate::text::push_str;
use crate::types::rate::spec_rate_name;

verus! {

/// Server-to-hub configuration record.
#[derive(Clone, Copy, Debug, PartialEq, Eq)]
pub struct HubConfig {
    pub id: u32,
    pub channel: Option<u8>,
    pub pmk: Option<[u8; 16]>,
    pub wake_window: Option<u16>,
    pub rate: Option<WifiPhyRate>,
}

/// Mathematical model of a [`HubConfig`] record.
pub ghost struct HubConfigV {
    pub id: u32,
    pub channel: Option<u8>,
    pub pmk: Option<Seq<u8>>,
    pub wake_window: Option<u16>,
    pub rate: Option<WifiPhyRate>,
}

impl View for HubConfig {
    type V = HubConfigV;

    open spec fn view(&self) -> HubConfigV {
        HubConfigV {
            id: self.id,
            channel: self.channel,
            pmk: match self.pmk {
                Some(k) => Some(k@),
                None => None,
            },
            wake_window: self.wake_window,
            rate: self.rate,
        }
    }
}

impl HubConfigV {
    /// Field bounds that hold of every constructible record.
    pub open spec fn wf(self) -> bool {
        self.pmk matches Some(k) ==> k.len() == 16
    }
}

impl HubConfig {
    /// Builds a configuration record; `None` fields are left unchanged by
    /// the receiving hub.
    pub fn new(
        id: u32,
        channel: Option<u8>,
        pmk: Option<[u8; 16]>,
        wake_window: Option<u16>,
        rate: Option<WifiPhyRate>,
    ) -> (r: HubConfig)
        ensures
            r == (HubConfig { id, channel, pmk, wake_window, rate }),
    {
        HubConfig { id, channel, pmk, wake_window, rate }
    }
}


/// The optional-field texts a configuration record renders with.
pub open spec fn hub_config_fields_text(v: HubConfigV) -> Seq<u8> {
    opt_text(
        match v.channel {
            None => None,
            Some(c) => Some(dec_digits(c as nat)),
        },
    ) + " pmk=".spec_bytes() + opt_text(
        match v.pmk {
            None => None,
            Some(k) => Some(byte_array_text(k)),
        },
    ) + " wake_window=".spec_bytes() + opt_text(
        match v.wake_window {
            None => None,
            Some(w) => Some(dec_digits(w as nat)),
        },
    ) + " rate=".spec_bytes() + opt_text(
        match v.rate {
            None => None,
            Some(r) => Some("Rate".spec_bytes() + encode_utf8(spec_rate_name(r))),
        },
    )
}

/// Diagnostic line for a configuration record.
pub open spec fn hub_config_text(v: HubConfigV) -> Seq<u8> {
    "[".spec_bytes() + dec_digits(v.id as nat) + "] HubConfig: channel=".spec_bytes()
        + hub_config_fields_text(v)
}

/// Debug text of a configuration record, field names included.
pub open spec fn hub_config_debug_text(v: HubConfigV) -> Seq<u8> {
    "HubConfig: HubConfig { id: ".spec_bytes() + dec_digits(v.id as nat) + ", channel=".spec_bytes()
        + hub_config_fields_text(v) + " }".spec_bytes()
}

impl HubConfig {
    /// Appends the optional-field summary shared by the two renderings.
    fn push_fields(&self, out: &mut String)
        ensures
            encode_utf8(final (out)@) == encode_utf8(old(out)@) + hub_config_fields_text(self@),
    {
        push_opt_u8(out, self.channel);
        push_str(out, " pmk=");
        push_opt_key(out, &self.pmk);
        push_str(out, " wake_window=");
        push_opt_u16(out, self.wake_window);
        push_str(out, " rate=");
        push_opt_rate(out, self.rate);
        proof {
            assert(encode_utf8(final (out)@) =~= encode_utf8(old(out)@) + hub_config_fields_text(
                self@,
            ));
        }
    }

    /// One fixed-format diagnostic line for this record.
    pub fn to_text(&self) -> (r: String)
        ensures
            encode_utf8(r@) == hub_config_text(self@),
    {
        let mut out = String::new();
        push_str(&mut out, "[");
        push_dec_u32(&mut out, self.id);
        push_str(&mut out, "] HubConfig: channel=");
        self.push_fields(&mut out);
        proof {
            assert(encode_utf8(out@) =~= hub_config_text(self@));
        }
        out
    }

    /// Debug rendering of this record, field names included.
    pub fn debug(&self) -> (r: String)
        ensures
            encode_utf8(r@) == hub_config_debug_text(self@),
    {
        let mut out = String::new();
        push_str(&mut out, "HubConfig: HubConfig { id: ");
        push_dec_u32(&mut out, self.id);
        push_str(&mut out, ", channel=");
        self.push_fields(&mut out);
        push_str(&mut out, " }");
        proof {
            assert(encode_utf8(out@) =~= hub_config_debug_text(self@));
        }
        out
    }
}

} // verus!
