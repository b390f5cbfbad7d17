//! The message envelope: a tagged union wrapping exactly one variant
//! record, with id projection and tag naming that are total over all nine
//! variants.
use vstd::prelude::*;
use vstd::string::StringExecFns;
use vstd::utf8::encode_utf8;

use crate::types::ack::ack_text;
use crate::types::broadcast::broadcast_data_text;
use crate::types::hub_config::hub_config_text;
use crate::types::init_config::init_config_text;
use crate::types::peer::peer_address_text;
use crate::types::peer::peer_info_text;
use crate::types::rx_data::rx_data_text;
use crate::types::tx_data::tx_data_text;

use crate::types::ack::Ack;
use crate::types::ack::AckV;
use crate::types::broadcast::BroadcastData;
use crate::types::broadcast::BroadcastDataV;
use crate::types::hub_config::HubConfig;
use crate::types::hub_config::HubConfigV;
use crate::types::init_config::InitConfig;
use crate::types::init_config::InitConfigV;
use crate::types::peer::PeerAddress;
use crate::types::peer::PeerAddressV;
use crate::types::peer::PeerInfo;
use crate::types::peer::PeerInfoV;
use crate::types::rx_data::RxData;
use crate::types::rx_data::RxDataV;
use crate::types::tx_data::TxData;
use crate::types::tx_data::TxDataV;
use crate::MAX_MSG_LENGTH;

verus! {

/// Codec failure: the bytes do not match the schema, or a fixed capacity
/// would be exceeded. Both are recoverable and are always returned, never
/// thrown.
#[derive(Clone, Copy, Debug, PartialEq, Eq, Structural)]
pub enum MsgError {
    /// The wire bytes are structurally invalid or truncated, or a text
    /// form is malformed.
    FormatError,
    /// An encoded form or a payload exceeds a fixed capacity.
    CapacityError,
}

/// The message envelope: exactly one variant record.
#[derive(Debug, PartialEq, Eq)]
pub enum Msg {
    Init(InitConfig),
    HubConfig(HubConfig),
    Send(TxData),
    Recv(RxData),
    Broadcast(BroadcastData),
    AddPeer(PeerInfo),
    ModifyPeer(PeerInfo),
    RemovePeer(PeerAddress),
    Ack(Ack),
}

/// Mathematical model of a [`Msg`] envelope.
pub ghost enum MsgV {
    Init(InitConfigV),
    HubConfig(HubConfigV),
    Send(TxDataV),
    Recv(RxDataV),
    Broadcast(BroadcastDataV),
    AddPeer(PeerInfoV),
    ModifyPeer(PeerInfoV),
    RemovePeer(PeerAddressV),
    Ack(AckV),
}

impl View for Msg {
    type V = MsgV;

    open spec fn view(&self) -> MsgV {
        match self {
            Msg::Init(m) => MsgV::Init(m@),
            Msg::HubConfig(m) => MsgV::HubConfig(m@),
            Msg::Send(m) => MsgV::Send(m@),
            Msg::Recv(m) => MsgV::Recv(m@),
            Msg::Broadcast(m) => MsgV::Broadcast(m@),
            Msg::AddPeer(m) => MsgV::AddPeer(m@),
            Msg::ModifyPeer(m) => MsgV::ModifyPeer(m@),
            Msg::RemovePeer(m) => MsgV::RemovePeer(m@),
            Msg::Ack(m) => MsgV::Ack(m@),
        }
    }
}

impl MsgV {
    /// Field bounds that hold of every constructible envelope.
    pub open spec fn wf(self) -> bool {
        match self {
            MsgV::Init(v) => v.wf(),
            MsgV::HubConfig(v) => v.wf(),
            MsgV::Send(v) => v.wf(),
            MsgV::Recv(v) => v.wf(),
            MsgV::Broadcast(v) => v.wf(),
            MsgV::AddPeer(v) => v.wf(),
            MsgV::ModifyPeer(v) => v.wf(),
            MsgV::RemovePeer(v) => v.wf(),
            MsgV::Ack(v) => v.wf(),
        }
    }

    /// The correlation id carried by the wrapped variant.
    pub open spec fn id(self) -> u32 {
        match self {
            MsgV::Init(v) => v.id,
            MsgV::HubConfig(v) => v.id,
            MsgV::Send(v) => v.id,
            MsgV::Recv(v) => v.id,
            MsgV::Broadcast(v) => v.id,
            MsgV::AddPeer(v) => v.id,
            MsgV::ModifyPeer(v) => v.id,
            MsgV::RemovePeer(v) => v.id,
            MsgV::Ack(v) => v.id,
        }
    }
}

impl Clone for Msg {
    fn clone(&self) -> (res: Self)
        ensures
            res@ == self@,
    {
        match self {
            Msg::Init(m) => Msg::Init(*m),
            Msg::HubConfig(m) => Msg::HubConfig(*m),
            Msg::Send(m) => Msg::Send(m.clone()),
            Msg::Recv(m) => Msg::Recv(m.clone()),
            Msg::Broadcast(m) => Msg::Broadcast(m.clone()),
            Msg::AddPeer(m) => Msg::AddPeer(*m),
            Msg::ModifyPeer(m) => Msg::ModifyPeer(*m),
            Msg::RemovePeer(m) => Msg::RemovePeer(*m),
            Msg::Ack(m) => Msg::Ack(*m),
        }
    }
}

/// Tag name of an envelope variant.
pub open spec fn spec_type_name(m: MsgV) -> Seq<char> {
    match m {
        MsgV::Init(_) => "Init"@,
        MsgV::HubConfig(_) => "HubConfig"@,
        MsgV::Send(_) => "Send"@,
        MsgV::Recv(_) => "Recv"@,
        MsgV::Broadcast(_) => "Broadcast"@,
        MsgV::AddPeer(_) => "AddPeer"@,
        MsgV::ModifyPeer(_) => "ModifyPeer"@,
        MsgV::RemovePeer(_) => "RemovePeer"@,
        MsgV::Ack(_) => "Ack"@,
    }
}

impl Msg {
    /// Wraps a handshake record.
    pub fn new_init(ic: InitConfig) -> (r: Msg)
        ensures
            r@ == MsgV::Init(ic@),
    {
        Msg::Init(ic)
    }

    /// Wraps a configuration record.
    pub fn new_hub_config(hc: HubConfig) -> (r: Msg)
        ensures
            r@ == MsgV::HubConfig(hc@),
    {
        Msg::HubConfig(hc)
    }

    /// Wraps a unicast send request.
    pub fn new_send(tx: TxData) -> (r: Msg)
        ensures
            r@ == MsgV::Send(tx@),
    {
        Msg::Send(tx)
    }

    /// Wraps a received-frame report.
    pub fn new_recv(rx: RxData) -> (r: Msg)
        ensures
            r@ == MsgV::Recv(rx@),
    {
        Msg::Recv(rx)
    }

    /// Wraps a broadcast send request.
    pub fn new_broadcast(broadcast: BroadcastData) -> (r: Msg)
        ensures
            r@ == MsgV::Broadcast(broadcast@),
    {
        Msg::Broadcast(broadcast)
    }

    /// Wraps a peer entry to add.
    pub fn new_add_peer(peer: PeerInfo) -> (r: Msg)
        ensures
            r@ == MsgV::AddPeer(peer@),
    {
        Msg::AddPeer(peer)
    }

    /// Wraps a peer entry to modify.
    pub fn new_modify_peer(peer: PeerInfo) -> (r: Msg)
        ensures
            r@ == MsgV::ModifyPeer(peer@),
    {
        Msg::ModifyPeer(peer)
    }

    /// Wraps a peer-removal record.
    pub fn new_remove_peer(peer: PeerAddress) -> (r: Msg)
        ensures
            r@ == MsgV::RemovePeer(peer@),
    {
        Msg::RemovePeer(peer)
    }

    /// Wraps an acknowledgement.
    pub fn new_ack(ack: Ack) -> (r: Msg)
        ensures
            r@ == MsgV::Ack(ack@),
    {
        Msg::Ack(ack)
    }

    /// Tag name of the wrapped variant.
    pub fn get_type(&self) -> (r: String)
        ensures
            r@ == spec_type_name(self@),
    {
        match self {
            Msg::Init(_) => String::from_str("Init"),
            Msg::HubConfig(_) => String::from_str("HubConfig"),
            Msg::Send(_) => String::from_str("Send"),
            Msg::Recv(_) => String::from_str("Recv"),
            Msg::Broadcast(_) => String::from_str("Broadcast"),
            Msg::AddPeer(_) => String::from_str("AddPeer"),
            Msg::ModifyPeer(_) => String::from_str("ModifyPeer"),
            Msg::RemovePeer(_) => String::from_str("RemovePeer"),
            Msg::Ack(_) => String::from_str("Ack"),
        }
    }

    /// Decodes an envelope from wire bytes, undoing [`Msg::to_slice`].
    /// Fails with a format error exactly when the bytes do not fit the
    /// schema; bytes past the message are ignored, as the transport may
    /// pad a frame.
    pub fn from_slice(buf: &[u8]) -> (r: Result<Msg, MsgError>)
        ensures
            match crate::codec::dec_msg(buf@) {
                Some(v) => r matches Ok(m) && m@ == v,
                None => r == Err::<Msg, MsgError>(MsgError::FormatError),
            },
    {
        crate::codec::decode_msg(buf)
    }

    /// Encodes this envelope into the front of the caller-owned buffer
    /// `buf`, whose length is left unchanged, and returns the number of
    /// bytes written. Fails with a capacity error, leaving the buffer
    /// untouched, exactly when the wire form is longer than the buffer.
    pub fn to_slice(&self, buf: &mut Vec<u8>) -> (r: Result<usize, MsgError>)
        ensures
            self@.wf(),
            final (buf)@.len() == old(buf)@.len(),
            match r {
                Ok(n) => {
                    &&& n == crate::codec::enc_msg(self@).len()
                    &&& n <= old(buf)@.len()
                    &&& final (buf)@ == crate::codec::enc_msg(self@) + old(buf)@.skip(n as int)
                },
                Err(e) => {
                    &&& e == MsgError::CapacityError
                    &&& crate::codec::enc_msg(self@).len() > old(buf)@.len()
                    &&& final (buf)@ == old(buf)@
                },
            },
    {
        let mut enc: Vec<u8> = Vec::new();
        crate::codec::encode_msg(self, &mut enc);
        let n = enc.len();
        if n > buf.len() {
            return Err(MsgError::CapacityError);
        }
        let mut t: usize = n;
        while t < buf.len()
            invariant
                n <= t <= buf@.len(),
                buf@ == old(buf)@,
                enc@ == crate::codec::enc_msg(self@) + buf@.subrange(n as int, t as int),
            decreases buf@.len() - t,
        {
            enc.push(buf[t]);
            t += 1;
            proof {
                assert(enc@ =~= crate::codec::enc_msg(self@) + buf@.subrange(
                    n as int,
                    t as int,
                ));
            }
        }
        *buf = enc;
        proof {
            assert(old(buf)@.subrange(n as int, t as int) =~= old(buf)@.skip(n as int));
        }
        Ok(n)
    }

    /// Encodes this envelope into a fixed-capacity buffer of
    /// [`crate::MAX_MSG_LENGTH`] bytes, for allocation-free deployments.
    /// Fails with a capacity error exactly when the wire form is longer
    /// than that.
    pub fn to_heapless(&self) -> (r: Result<crate::hbuf::MsgBuf, MsgError>)
        ensures
            self@.wf(),
            match r {
                Ok(h) => crate::hbuf::hvec_bytes(h) == crate::codec::enc_msg(self@)
                    && crate::codec::enc_msg(self@).len() <= MAX_MSG_LENGTH,
                Err(e) => e == MsgError::CapacityError && crate::codec::enc_msg(self@).len()
                    > MAX_MSG_LENGTH,
            },
    {
        let mut enc: Vec<u8> = Vec::new();
        crate::codec::encode_msg(self, &mut enc);
        if enc.len() > MAX_MSG_LENGTH {
            return Err(MsgError::CapacityError);
        }
        Ok(crate::hbuf::hvec_from_slice(enc.as_slice()))
    }

    /// The correlation id of any envelope, without matching on the
    /// variant at the call site: always the wrapped record's `id`.
    pub fn get_id(&self) -> (r: u32)
        ensures
            r == self@.id(),
    {
        match self {
            Msg::Init(m) => m.id,
            Msg::HubConfig(m) => m.id,
            Msg::Send(m) => m.id,
            Msg::Recv(m) => m.id,
            Msg::Broadcast(m) => m.id,
            Msg::AddPeer(m) => m.id,
            Msg::ModifyPeer(m) => m.id,
            Msg::RemovePeer(m) => m.id,
            Msg::Ack(m) => m.id,
        }
    }
}


/// Diagnostic line for an envelope: the wrapped record's line.
pub open spec fn msg_text(m: MsgV) -> Seq<u8> {
    match m {
        MsgV::Init(v) => init_config_text(v),
        MsgV::HubConfig(v) => hub_config_text(v),
        MsgV::Send(v) => tx_data_text(v),
        MsgV::Recv(v) => rx_data_text(v),
        MsgV::Broadcast(v) => broadcast_data_text(v),
        MsgV::AddPeer(v) => peer_info_text(v),
        MsgV::ModifyPeer(v) => peer_info_text(v),
        MsgV::RemovePeer(v) => peer_address_text(v),
        MsgV::Ack(v) => ack_text(v),
    }
}

impl Msg {
    /// One fixed-format diagnostic line per variant: the tag's record
    /// rendered with the address and preview formatters. Not used for
    /// wire transmission and not required to round-trip.
    pub fn to_text(&self) -> (r: String)
        ensures
            encode_utf8(r@) == msg_text(self@),
    {
        match self {
            Msg::Init(m) => m.to_text(),
            Msg::HubConfig(m) => m.to_text(),
            Msg::Send(m) => m.to_text(),
            Msg::Recv(m) => m.to_text(),
            Msg::Broadcast(m) => m.to_text(),
            Msg::AddPeer(m) => m.to_text(),
            Msg::ModifyPeer(m) => m.to_text(),
            Msg::RemovePeer(m) => m.to_text(),
            Msg::Ack(m) => m.to_text(),
        }
    }
}

} // verus!
