//! Audit records for traffic observation: an outgoing or incoming
//! envelope, or a bare transmit/receive failure marker. Pure data; no
//! state and no side effects beyond construction.
use vstd::prelude::*;
use vstd::string::StringSliceAdditionalSpecFns;
use vstd::utf8::encode_utf8;

use crate::text::push_str;
use crate::types::msg::Msg;
use crate::types::msg::msg_text;
use crate::types::msg::MsgV;

verus! {

/// One observability record. Not transmitted on the wire.
#[derive(Clone, Debug, PartialEq, Eq)]
pub enum Monitor {
    /// An envelope that was sent.
    Tx(Msg),
    /// An envelope that was received.
    Rx(Msg),
    /// A receive failure with no decodable envelope.
    RxError,
    /// A transmit failure.
    TxError,
}

/// Mathematical model of a [`Monitor`] record.
pub ghost enum MonitorV {
    Tx(MsgV),
    Rx(MsgV),
    RxError,
    TxError,
}

impl View for Monitor {
    type V = MonitorV;

    open spec fn view(&self) -> MonitorV {
        match self {
            Monitor::Tx(m) => MonitorV::Tx(m@),
            Monitor::Rx(m) => MonitorV::Rx(m@),
            Monitor::RxError => MonitorV::RxError,
            Monitor::TxError => MonitorV::TxError,
        }
    }
}

/// Diagnostic line for an audit record: a direction marker before the
/// wrapped envelope's line, or a fixed error text.
pub open spec fn monitor_text(m: MonitorV) -> Seq<u8> {
    match m {
        MonitorV::Tx(v) => "<TX> ".spec_bytes() + msg_text(v),
        MonitorV::Rx(v) => "<RX> ".spec_bytes() + msg_text(v),
        MonitorV::TxError => "TX ERROR".spec_bytes(),
        MonitorV::RxError => "RX ERROR".spec_bytes(),
    }
}

impl Monitor {
    /// Records an outgoing envelope, keeping its own copy.
    pub fn new_tx(msg: &Msg) -> (r: Monitor)
        ensures
            r@ == MonitorV::Tx(msg@),
    {
        Monitor::Tx(msg.clone())
    }

    /// Records an incoming envelope, keeping its own copy.
    pub fn new_rx(msg: &Msg) -> (r: Monitor)
        ensures
            r@ == MonitorV::Rx(msg@),
    {
        Monitor::Rx(msg.clone())
    }

    /// Records a receive failure.
    pub fn new_rxerror() -> (r: Monitor)
        ensures
            r@ == MonitorV::RxError,
    {
        Monitor::RxError
    }

    /// Records a transmit failure.
    pub fn new_txerror() -> (r: Monitor)
        ensures
            r@ == MonitorV::TxError,
    {
        Monitor::TxError
    }

    /// One fixed-format diagnostic line for this record.
    pub fn to_text(&self) -> (r: String)
        ensures
            encode_utf8(r@) == monitor_text(self@),
    {
        match self {
            Monitor::Tx(m) => {
                let mut out = String::new();
                push_str(&mut out, "<TX> ");
                let line = m.to_text();
                push_str(&mut out, line.as_str());
                proof {
                    assert(encode_utf8(out@) =~= monitor_text(self@));
                }
                out
            },
            Monitor::Rx(m) => {
                let mut out = String::new();
                push_str(&mut out, "<RX> ");
                let line = m.to_text();
                push_str(&mut out, line.as_str());
                proof {
                    assert(encode_utf8(out@) =~= monitor_text(self@));
                }
                out
            },
            Monitor::TxError => {
                let mut out = String::new();
                push_str(&mut out, "TX ERROR");
                proof {
                    assert(encode_utf8(out@) =~= monitor_text(self@));
                }
                out
            },
            Monitor::RxError => {
                let mut out = String::new();
                push_str(&mut out, "RX ERROR");
                proof {
                    assert(encode_utf8(out@) =~= monitor_text(self@));
                }
                out
            },
        }
    }
}

} // verus!
