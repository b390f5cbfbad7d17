//! Hub-to-server report of a received radio frame.
use vstd::prelude::*;

use crate::types::data::Data;
use crate::types::msg::MsgError;
use crate::MAX_DATA_LEN;

use vstd::string::StringSliceAdditionalSpecFns;
use vstd::utf8::encode_utf8;

use crate::format_mac::format_mac;
use crate::format_mac::spec_format_mac;
use crate::text::dec_digits;
use crate::text::i32_text;
use crate::text::push_dec_i32;
use crate::text::push_dec_u32;
use crate::text::push_str;
use crate::view::display_vec;
use crate::view::preview_bytes;

verus! {

/// Hub-to-server received-frame report.
#[derive(Debug, PartialEq, Eq)]
pub struct RxData {
    pub id: u32,
    pub src_addr: [u8; 6],
    pub dst_addr: [u8; 6],
    pub data: Data,
    pub rssi: i32,
}

/// Mathematical model of an [`RxData`] record.
pub ghost struct RxDataV {
    pub id: u32,
    pub src_addr: Seq<u8>,
    pub dst_addr: Seq<u8>,
    pub data: Seq<u8>,
    pub rssi: i32,
}

impl View for RxData {
    type V = RxDataV;

    open spec fn view(&self) -> RxDataV {
        RxDataV {
            id: self.id,
            src_addr: self.src_addr@,
            dst_addr: self.dst_addr@,
            data: self.data@,
            rssi: self.rssi,
        }
    }
}

impl Clone for RxData {
    fn clone(&self) -> (res: Self)
        ensures
            res@ == self@,
    {
        RxData {
            id: self.id,
            src_addr: self.src_addr,
            dst_addr: self.dst_addr,
            data: self.data.clone(),
            rssi: self.rssi,
        }
    }
}

impl RxDataV {
    /// Field bounds that hold of every constructible record.
    pub open spec fn wf(self) -> bool {
        self.src_addr.len() == 6 && self.dst_addr.len() == 6 && self.data.len() <= MAX_DATA_LEN
    }
}

impl RxData {
    /// Builds a received-frame report; fails with a capacity error when
    /// `data` is longer than [`crate::MAX_DATA_LEN`] bytes, and never
    /// truncates.
    pub fn new(id: u32, src_addr: [u8; 6], dst_addr: [u8; 6], data: Vec<u8>, rssi: i32) -> (r:
        Result<RxData, MsgError>)
        ensures
            data@.len() <= MAX_DATA_LEN ==> (r matches Ok(t) && t@ == (RxDataV {
                id,
                src_addr: src_addr@,
                dst_addr: dst_addr@,
                data: data@,
                rssi,
            })),
            data@.len() > MAX_DATA_LEN ==> r == Err::<RxData, MsgError>(MsgError::CapacityError),
    {
        let d = Data::from_vec(data)?;
        Ok(RxData { id, src_addr, dst_addr, data: d, rssi })
    }

    /// Correlation id of the report.
    pub fn get_id(&self) -> (r: u32)
        ensures
            r == self@.id,
    {
        self.id
    }

    /// Source radio address of the received frame.
    pub fn get_src_addr(&self) -> (r: [u8; 6])
        ensures
            r@ == self@.src_addr,
    {
        self.src_addr
    }

    /// Destination radio address of the received frame.
    pub fn get_dst_addr(&self) -> (r: [u8; 6])
        ensures
            r@ == self@.dst_addr,
    {
        self.dst_addr
    }

    /// The frame payload bytes.
    pub fn get_data(&self) -> (r: &[u8])
        ensures
            r@ == self@.data,
    {
        self.data.as_slice()
    }

    /// Received signal strength indication of the frame.
    pub fn get_rssi(&self) -> (r: i32)
        ensures
            r == self@.rssi,
    {
        self.rssi
    }
}


/// Diagnostic line for a received-frame report; the payload is previewed
/// at a width of 64 bytes.
pub open spec fn rx_data_text(v: RxDataV) -> Seq<u8> {
    "[".spec_bytes() + dec_digits(v.id as nat) + "] RxData: src=".spec_bytes() + spec_format_mac(
        v.src_addr,
    ) + " dst=".spec_bytes() + spec_format_mac(v.dst_addr) + " rssi=".spec_bytes() + i32_text(
        v.rssi,
    ) + " data=\"".spec_bytes() + preview_bytes(v.data, 64) + "\"".spec_bytes()
}

impl RxData {
    /// One fixed-format diagnostic line for this record.
    pub fn to_text(&self) -> (r: String)
        ensures
            encode_utf8(r@) == rx_data_text(self@),
    {
        let mut out = String::new();
        push_str(&mut out, "[");
        push_dec_u32(&mut out, self.id);
        push_str(&mut out, "] RxData: src=");
        let src = format_mac(&self.src_addr);
        push_str(&mut out, src.as_str());
        push_str(&mut out, " dst=");
        let dst = format_mac(&self.dst_addr);
        push_str(&mut out, dst.as_str());
        push_str(&mut out, " rssi=");
        push_dec_i32(&mut out, self.rssi);
        push_str(&mut out, " data=\"");
        let preview = display_vec(self.data.as_slice(), 64);
        push_str(&mut out, preview.as_str());
        push_str(&mut out, "\"");
        proof {
            assert(encode_utf8(out@) =~= rx_data_text(self@));
        }
        out
    }
}

} // verus!
