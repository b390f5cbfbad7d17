//! Server-to-hub broadcast send request, optionally repeated periodically.
use vstd::prelude::*;

use crate::types::data::Data;
use crate::types::msg::MsgError;
use crate::MAX_DATA_LEN;

use vstd::string::StringSliceAdditionalSpecFns;
use vstd::utf8::encode_utf8;

use crate::text::dec_digits;
use crate::text::opt_text;
use crate::text::push_dec_u32;
use crate::text::push_opt_u32;
use crate::text::push_str;
use crate::view::display_vec;
use crate::view::preview_bytes;

verus! {

/// Server-to-hub broadcast send request.
#[derive(Debug, PartialEq, Eq)]
pub struct BroadcastData {
    pub id: u32,
    pub data: Data,
    pub interval: Option<u32>,
}

/// Mathematical model of a [`BroadcastData`] record.
pub ghost struct BroadcastDataV {
    pub id: u32,
    pub data: Seq<u8>,
    pub interval: Option<u32>,
}

impl View for BroadcastData {
    type V = BroadcastDataV;

    open spec fn view(&self) -> BroadcastDataV {
        BroadcastDataV { id: self.id, data: self.data@, interval: self.interval }
    }
}

impl Clone for BroadcastData {
    fn clone(&self) -> (res: Self)
        ensures
            res@ == self@,
    {
        BroadcastData { id: self.id, data: self.data.clone(), interval: self.interval }
    }
}

impl BroadcastDataV {
    /// Field bounds that hold of every constructible record.
    pub open spec fn wf(self) -> bool {
        self.data.len() <= MAX_DATA_LEN
    }
}

impl BroadcastData {
    /// Builds a broadcast request; an interval asks the hub to repeat the
    /// broadcast periodically. Fails with a capacity error when `data` is
    /// longer than [`crate::MAX_DATA_LEN`] bytes, and never truncates.
    pub fn new(id: u32, data: Vec<u8>, interval: Option<u32>) -> (r: Result<
        BroadcastData,
        MsgError,
    >)
        ensures
            data@.len() <= MAX_DATA_LEN ==> (r matches Ok(t) && t@ == (BroadcastDataV {
                id,
                data: data@,
                interval,
            })),
            data@.len() > MAX_DATA_LEN ==> r == Err::<BroadcastData, MsgError>(
                MsgError::CapacityError,
            ),
    {
        let d = Data::from_vec(data)?;
        Ok(BroadcastData { id, data: d, interval })
    }
}


/// Diagnostic line for a broadcast request; the payload is previewed at
/// a width of 64 bytes.
pub open spec fn broadcast_data_text(v: BroadcastDataV) -> Seq<u8> {
    "[".spec_bytes() + dec_digits(v.id as nat) + "] BroadcastData: interval=".spec_bytes()
        + opt_text(
        match v.interval {
            None => None,
            Some(t) => Some(dec_digits(t as nat)),
        },
    ) + " data=\"".spec_bytes() + preview_bytes(v.data, 64) + "\"".spec_bytes()
}

impl BroadcastData {
    /// One fixed-format diagnostic line for this record.
    pub fn to_text(&self) -> (r: String)
        ensures
            encode_utf8(r@) == broadcast_data_text(self@),
    {
        let mut out = String::new();
        push_str(&mut out, "[");
        push_dec_u32(&mut out, self.id);
        push_str(&mut out, "] BroadcastData: interval=");
        push_opt_u32(&mut out, self.interval);
        push_str(&mut out, " data=\"");
        let preview = display_vec(self.data.as_slice(), 64);
        push_str(&mut out, preview.as_str());
        push_str(&mut out, "\"");
        proof {
            assert(encode_utf8(out@) =~= broadcast_data_text(self@));
        }
        out
    }
}

} // verus!
