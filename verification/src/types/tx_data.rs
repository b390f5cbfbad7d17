//! Server-to-hub unicast send request.
use vstd::prelude::*;

use crate::types::data::Data;
use crate::types::msg::MsgError;
use crate::MAX_DATA_LEN;

use vstd::string::StringSliceAdditionalSpecFns;
use vstd::utf8::encode_utf8;

use crate::format_mac::format_mac;
use crate::format_mac::spec_format_mac;
use crate::text::bool_text;
use crate::text::dec_digits;
use crate::text::push_bool;
use crate::text::push_dec_u32;
use crate::text::push_str;
use crate::view::display_vec;
use crate::view::preview_bytes;

verus! {

/// Server-to-hub unicast send request.
#[derive(Debug, PartialEq, Eq)]
pub struct TxData {
    pub id: u32,
    pub dst_addr: [u8; 6],
    pub data: Data,
    pub defer: bool,
}

/// Mathematical model of a [`TxData`] record.
pub ghost struct TxDataV {
    pub id: u32,
    pub dst_addr: Seq<u8>,
    pub data: Seq<u8>,
    pub defer: bool,
}

impl View for TxData {
    type V = TxDataV;

    open spec fn view(&self) -> TxDataV {
        TxDataV { id: self.id, dst_addr: self.dst_addr@, data: self.data@, defer: self.defer }
    }
}

impl Clone for TxData {
    fn clone(&self) -> (res: Self)
        ensures
            res@ == self@,
    {
        TxData {
            id: self.id,
            dst_addr: self.dst_addr,
            data: self.data.clone(),
            defer: self.defer,
        }
    }
}

impl TxDataV {
    /// Field bounds that hold of every constructible record.
    pub open spec fn wf(self) -> bool {
        self.dst_addr.len() == 6 && self.data.len() <= MAX_DATA_LEN
    }
}

impl TxData {
    /// Builds a send request; fails with a capacity error when `data` is
    /// longer than [`crate::MAX_DATA_LEN`] bytes, and never truncates.
    pub fn new(id: u32, dst_addr: [u8; 6], data: Vec<u8>, defer: bool) -> (r: Result<
        TxData,
        MsgError,
    >)
        ensures
            data@.len() <= MAX_DATA_LEN ==> (r matches Ok(t) && t@ == (TxDataV {
                id,
                dst_addr: dst_addr@,
                data: data@,
                defer,
            })),
            data@.len() > MAX_DATA_LEN ==> r == Err::<TxData, MsgError>(MsgError::CapacityError),
    {
        let d = Data::from_vec(data)?;
        Ok(TxData { id, dst_addr, data: d, defer })
    }
}


/// Diagnostic line for a send request; the payload is previewed at a
/// width of 64 bytes.
pub open spec fn tx_data_text(v: TxDataV) -> Seq<u8> {
    "[".spec_bytes() + dec_digits(v.id as nat) + "] TxData: dst=".spec_bytes() + spec_format_mac(
        v.dst_addr,
    ) + " defer=".spec_bytes() + bool_text(v.defer) + " data=\"".spec_bytes() + preview_bytes(
        v.data,
        64,
    ) + "\"".spec_bytes()
}

impl TxData {
    /// One fixed-format diagnostic line for this record.
    pub fn to_text(&self) -> (r: String)
        ensures
            encode_utf8(r@) == tx_data_text(self@),
    {
        let mut out = String::new();
        push_str(&mut out, "[");
        push_dec_u32(&mut out, self.id);
        push_str(&mut out, "] TxData: dst=");
        let mac = format_mac(&self.dst_addr);
        push_str(&mut out, mac.as_str());
        push_str(&mut out, " defer=");
        push_bool(&mut out, self.defer);
        push_str(&mut out, " data=\"");
        let preview = display_vec(self.data.as_slice(), 64);
        push_str(&mut out, preview.as_str());
        push_str(&mut out, "\"");
        proof {
            assert(encode_utf8(out@) =~= tx_data_text(self@));
        }
        out
    }
}

} // verus!
