//! Deterministic binary codec for the message envelope.
//!
//! The wire form is schema-derived and compact: numeric fields travel as
//! little-endian base-128 varints (signed values zigzag-folded first),
//! single bytes and booleans as one byte, fixed-size addresses and keys as
//! raw bytes, byte payloads length-prefixed, optional fields as a presence
//! byte followed by the value, and the envelope tag as a leading
//! discriminant byte. Encoding a value always produces the same bytes, and
//! decoding them reproduces an equal value.
use vstd::prelude::*;

use crate::types::ack::AckV;
use crate::types::broadcast::BroadcastDataV;
use crate::types::hub_config::HubConfigV;
use crate::types::init_config::InitConfigV;
use crate::types::msg::MsgError;
use crate::types::msg::MsgV;
use crate::types::peer::PeerAddressV;
use crate::types::peer::PeerInfoV;
use crate::types::rate::spec_rate_from_index;
use crate::types::rate::spec_rate_index;
use crate::types::rate::WifiPhyRate;
use crate::types::rx_data::RxDataV;
use crate::types::tx_data::TxDataV;
use crate::MAX_DATA_LEN;

verus! {

// ---------------------------------------------------------------------
// Encoding, as total functions from models to byte sequences.
// ---------------------------------------------------------------------
/// Little-endian base-128 varint form of an unsigned value: seven value
/// bits per byte, high bit set on every byte but the last.
pub open spec fn spec_varint(n: nat) -> Seq<u8>
    decreases n,
{
    if n < 0x80 {
        seq![n as u8]
    } else {
        seq![(0x80 + n % 0x80) as u8] + spec_varint(n / 0x80)
    }
}

/// Wire form of a `u32` field.
pub open spec fn enc_u32(x: u32) -> Seq<u8> {
    spec_varint(x as nat)
}

/// Wire form of a `u16` field.
pub open spec fn enc_u16(x: u16) -> Seq<u8> {
    spec_varint(x as nat)
}

/// Zigzag fold of a signed value onto the unsigned line, so that values
/// of small magnitude get short varints.
pub open spec fn spec_zigzag(x: i32) -> nat {
    if x >= 0 {
        (2 * (x as int)) as nat
    } else {
        (-2 * (x as int) - 1) as nat
    }
}

/// Wire form of an `i32` field: zigzag fold, then varint.
pub open spec fn enc_i32(x: i32) -> Seq<u8> {
    spec_varint(spec_zigzag(x))
}

/// Wire form of a `bool` field: one byte, `0` or `1`.
pub open spec fn enc_bool(b: bool) -> Seq<u8> {
    if b {
        seq![1u8]
    } else {
        seq![0u8]
    }
}

/// Wire form of a length-prefixed byte payload.
pub open spec fn enc_bytes(s: Seq<u8>) -> Seq<u8> {
    spec_varint(s.len()) + s
}

/// Wire form of an optional single-byte field.
pub open spec fn enc_opt_u8(o: Option<u8>) -> Seq<u8> {
    match o {
        None => seq![0u8],
        Some(v) => seq![1u8] + seq![v],
    }
}

/// Wire form of an optional `u16` field.
pub open spec fn enc_opt_u16(o: Option<u16>) -> Seq<u8> {
    match o {
        None => seq![0u8],
        Some(v) => seq![1u8] + enc_u16(v),
    }
}

/// Wire form of an optional `u32` field.
pub open spec fn enc_opt_u32(o: Option<u32>) -> Seq<u8> {
    match o {
        None => seq![0u8],
        Some(v) => seq![1u8] + enc_u32(v),
    }
}

/// Wire form of an optional 16-byte key field.
pub open spec fn enc_opt_key(o: Option<Seq<u8>>) -> Seq<u8> {
    match o {
        None => seq![0u8],
        Some(k) => seq![1u8] + k,
    }
}

/// Wire form of an optional rate field: the rate's ordinal as a varint.
pub open spec fn enc_opt_rate(o: Option<WifiPhyRate>) -> Seq<u8> {
    match o {
        None => seq![0u8],
        Some(r) => seq![1u8] + enc_u32(spec_rate_index(r)),
    }
}

/// Wire form of a handshake payload.
pub open spec fn enc_init(v: InitConfigV) -> Seq<u8> {
    enc_u32(v.id) + enc_u32(v.api_version) + enc_u32(v.now_version) + seq![v.channel] + v.address
}

/// Wire form of a configuration payload.
pub open spec fn enc_hub_config(v: HubConfigV) -> Seq<u8> {
    enc_u32(v.id) + enc_opt_u8(v.channel) + enc_opt_key(v.pmk) + enc_opt_u16(v.wake_window)
        + enc_opt_rate(v.rate)
}

/// Wire form of a unicast send payload.
pub open spec fn enc_send(v: TxDataV) -> Seq<u8> {
    enc_u32(v.id) + v.dst_addr + enc_bytes(v.data) + enc_bool(v.defer)
}

/// Wire form of a received-frame payload.
pub open spec fn enc_recv(v: RxDataV) -> Seq<u8> {
    enc_u32(v.id) + v.src_addr + v.dst_addr + enc_bytes(v.data) + enc_i32(v.rssi)
}

/// Wire form of a broadcast payload.
pub open spec fn enc_broadcast(v: BroadcastDataV) -> Seq<u8> {
    enc_u32(v.id) + enc_bytes(v.data) + enc_opt_u32(v.interval)
}

/// Wire form of a peer entry payload.
pub open spec fn enc_peer_info(v: PeerInfoV) -> Seq<u8> {
    enc_u32(v.id) + v.peer_address + enc_opt_key(v.lmk) + enc_opt_u8(v.channel) + enc_bool(
        v.encrypt,
    )
}

/// Wire form of a peer-removal payload.
pub open spec fn enc_peer_address(v: PeerAddressV) -> Seq<u8> {
    enc_u32(v.id) + v.address
}

/// Wire form of an acknowledgement payload.
pub open spec fn enc_ack(v: AckV) -> Seq<u8> {
    enc_u32(v.id) + enc_u32(v.rx_id) + enc_bool(v.status)
}

/// Discriminant byte of an envelope variant.
pub open spec fn spec_tag(m: MsgV) -> u8 {
    match m {
        MsgV::Init(_) => 0,
        MsgV::HubConfig(_) => 1,
        MsgV::Send(_) => 2,
        MsgV::Recv(_) => 3,
        MsgV::Broadcast(_) => 4,
        MsgV::AddPeer(_) => 5,
        MsgV::ModifyPeer(_) => 6,
        MsgV::RemovePeer(_) => 7,
        MsgV::Ack(_) => 8,
    }
}

/// The full wire form of an envelope: discriminant byte, then the
/// variant's payload fields in schema order.
pub open spec fn enc_msg(m: MsgV) -> Seq<u8> {
    seq![spec_tag(m)] + match m {
        MsgV::Init(v) => enc_init(v),
        MsgV::HubConfig(v) => enc_hub_config(v),
        MsgV::Send(v) => enc_send(v),
        MsgV::Recv(v) => enc_recv(v),
        MsgV::Broadcast(v) => enc_broadcast(v),
        MsgV::AddPeer(v) => enc_peer_info(v),
        MsgV::ModifyPeer(v) => enc_peer_info(v),
        MsgV::RemovePeer(v) => enc_peer_address(v),
        MsgV::Ack(v) => enc_ack(v),
    }
}

// ---------------------------------------------------------------------
// Decoding, as total functions from byte sequences to models. Each
// decoder yields the decoded value and the position just past it, or
// `None` when the bytes do not fit the schema.
// ---------------------------------------------------------------------
/// Reads one raw byte.
pub open spec fn dec_byte(s: Seq<u8>, i: int) -> Option<(u8, int)> {
    if 0 <= i < s.len() {
        Some((s[i], i + 1))
    } else {
        None
    }
}

/// Reads a varint of at most `5 - k` bytes, as an unbounded natural.
pub open spec fn dec_varint_nat(s: Seq<u8>, i: int, k: nat) -> Option<(nat, int)>
    decreases 5 - k,
{
    if k >= 5 || !(0 <= i < s.len()) {
        None
    } else {
        let b = s[i];
        if b < 0x80 {
            Some((b as nat, i + 1))
        } else {
            match dec_varint_nat(s, i + 1, k + 1) {
                None => None,
                Some((v, j)) => Some(((b - 0x80) as nat + 0x80 * v, j)),
            }
        }
    }
}

/// Reads a `u32` varint: at most five bytes, value within range.
pub open spec fn dec_u32(s: Seq<u8>, i: int) -> Option<(u32, int)> {
    match dec_varint_nat(s, i, 0) {
        None => None,
        Some((v, j)) => if v <= u32::MAX {
            Some((v as u32, j))
        } else {
            None
        },
    }
}

/// Reads a `u16` varint: a `u32` varint whose value fits a `u16`.
pub open spec fn dec_u16(s: Seq<u8>, i: int) -> Option<(u16, int)> {
    match dec_u32(s, i) {
        None => None,
        Some((v, j)) => if v <= u16::MAX {
            Some((v as u16, j))
        } else {
            None
        },
    }
}

/// Unfolds a zigzag-coded unsigned value back onto the signed line.
pub open spec fn spec_unzigzag(v: u32) -> i32 {
    if v % 2 == 0 {
        ((v as int) / 2) as i32
    } else {
        (-((v as int) + 1) / 2) as i32
    }
}

/// Reads an `i32`: a varint, zigzag-unfolded.
pub open spec fn dec_i32(s: Seq<u8>, i: int) -> Option<(i32, int)> {
    match dec_u32(s, i) {
        None => None,
        Some((v, j)) => Some((spec_unzigzag(v), j)),
    }
}

/// Reads a `bool` byte: `0` or `1`, anything else refused.
pub open spec fn dec_bool(s: Seq<u8>, i: int) -> Option<(bool, int)> {
    match dec_byte(s, i) {
        None => None,
        Some((b, j)) => if b == 0 {
            Some((false, j))
        } else if b == 1 {
            Some((true, j))
        } else {
            None
        },
    }
}

/// Reads `n` raw bytes.
pub open spec fn dec_arr(s: Seq<u8>, i: int, n: int) -> Option<(Seq<u8>, int)> {
    if 0 <= i && 0 <= n && i + n <= s.len() {
        Some((s.subrange(i, i + n), i + n))
    } else {
        None
    }
}

/// Reads a length-prefixed payload of at most [`crate::MAX_DATA_LEN`]
/// bytes.
pub open spec fn dec_data(s: Seq<u8>, i: int) -> Option<(Seq<u8>, int)> {
    match dec_u32(s, i) {
        None => None,
        Some((len, j)) => if len <= MAX_DATA_LEN {
            dec_arr(s, j, len as int)
        } else {
            None
        },
    }
}

/// Reads an optional single byte: presence byte, then the value.
pub open spec fn dec_opt_u8(s: Seq<u8>, i: int) -> Option<(Option<u8>, int)> {
    match dec_byte(s, i) {
        None => None,
        Some((p, j)) => if p == 0 {
            Some((None, j))
        } else if p == 1 {
            match dec_byte(s, j) {
                None => None,
                Some((v, j2)) => Some((Some(v), j2)),
            }
        } else {
            None
        },
    }
}

/// Reads an optional `u16`.
pub open spec fn dec_opt_u16(s: Seq<u8>, i: int) -> Option<(Option<u16>, int)> {
    match dec_byte(s, i) {
        None => None,
        Some((p, j)) => if p == 0 {
            Some((None, j))
        } else if p == 1 {
            match dec_u16(s, j) {
                None => None,
                Some((v, j2)) => Some((Some(v), j2)),
            }
        } else {
            None
        },
    }
}

/// Reads an optional `u32`.
pub open spec fn dec_opt_u32(s: Seq<u8>, i: int) -> Option<(Option<u32>, int)> {
    match dec_byte(s, i) {
        None => None,
        Some((p, j)) => if p == 0 {
            Some((None, j))
        } else if p == 1 {
            match dec_u32(s, j) {
                None => None,
                Some((v, j2)) => Some((Some(v), j2)),
            }
        } else {
            None
        },
    }
}

/// Reads an optional 16-byte key.
pub open spec fn dec_opt_key(s: Seq<u8>, i: int) -> Option<(Option<Seq<u8>>, int)> {
    match dec_byte(s, i) {
        None => None,
        Some((p, j)) => if p == 0 {
            Some((None, j))
        } else if p == 1 {
            match dec_arr(s, j, 16) {
                None => None,
                Some((k, j2)) => Some((Some(k), j2)),
            }
        } else {
            None
        },
    }
}

/// Reads an optional rate: a varint ordinal that must name a rate.
pub open spec fn dec_opt_rate(s: Seq<u8>, i: int) -> Option<(Option<WifiPhyRate>, int)> {
    match dec_byte(s, i) {
        None => None,
        Some((p, j)) => if p == 0 {
            Some((None, j))
        } else if p == 1 {
            match dec_u32(s, j) {
                None => None,
                Some((v, j2)) => match spec_rate_from_index(v) {
                    None => None,
                    Some(r) => Some((Some(r), j2)),
                },
            }
        } else {
            None
        },
    }
}

/// Reads a handshake payload.
pub open spec fn dec_init(s: Seq<u8>, i: int) -> Option<(InitConfigV, int)> {
    match dec_u32(s, i) {
        None => None,
        Some((id, i1)) => match dec_u32(s, i1) {
            None => None,
            Some((api_version, i2)) => match dec_u32(s, i2) {
                None => None,
                Some((now_version, i3)) => match dec_byte(s, i3) {
                    None => None,
                    Some((channel, i4)) => match dec_arr(s, i4, 6) {
                        None => None,
                        Some((address, i5)) => Some(
                            (InitConfigV { id, api_version, now_version, channel, address }, i5),
                        ),
                    },
                },
            },
        },
    }
}

/// Reads a configuration payload.
pub open spec fn dec_hub_config(s: Seq<u8>, i: int) -> Option<(HubConfigV, int)> {
    match dec_u32(s, i) {
        None => None,
        Some((id, i1)) => match dec_opt_u8(s, i1) {
            None => None,
            Some((channel, i2)) => match dec_opt_key(s, i2) {
                None => None,
                Some((pmk, i3)) => match dec_opt_u16(s, i3) {
                    None => None,
                    Some((wake_window, i4)) => match dec_opt_rate(s, i4) {
                        None => None,
                        Some((rate, i5)) => Some(
                            (HubConfigV { id, channel, pmk, wake_window, rate }, i5),
                        ),
                    },
                },
            },
        },
    }
}

/// Reads a unicast send payload.
pub open spec fn dec_send(s: Seq<u8>, i: int) -> Option<(TxDataV, int)> {
    match dec_u32(s, i) {
        None => None,
        Some((id, i1)) => match dec_arr(s, i1, 6) {
            None => None,
            Some((dst_addr, i2)) => match dec_data(s, i2) {
                None => None,
                Some((data, i3)) => match dec_bool(s, i3) {
                    None => None,
                    Some((defer, i4)) => Some((TxDataV { id, dst_addr, data, defer }, i4)),
                },
            },
        },
    }
}

/// Reads a received-frame payload.
pub open spec fn dec_recv(s: Seq<u8>, i: int) -> Option<(RxDataV, int)> {
    match dec_u32(s, i) {
        None => None,
        Some((id, i1)) => match dec_arr(s, i1, 6) {
            None => None,
            Some((src_addr, i2)) => match dec_arr(s, i2, 6) {
                None => None,
                Some((dst_addr, i3)) => match dec_data(s, i3) {
                    None => None,
                    Some((data, i4)) => match dec_i32(s, i4) {
                        None => None,
                        Some((rssi, i5)) => Some(
                            (RxDataV { id, src_addr, dst_addr, data, rssi }, i5),
                        ),
                    },
                },
            },
        },
    }
}

/// Reads a broadcast payload.
pub open spec fn dec_broadcast(s: Seq<u8>, i: int) -> Option<(BroadcastDataV, int)> {
    match dec_u32(s, i) {
        None => None,
        Some((id, i1)) => match dec_data(s, i1) {
            None => None,
            Some((data, i2)) => match dec_opt_u32(s, i2) {
                None => None,
                Some((interval, i3)) => Some((BroadcastDataV { id, data, interval }, i3)),
            },
        },
    }
}

/// Reads a peer entry payload.
pub open spec fn dec_peer_info(s: Seq<u8>, i: int) -> Option<(PeerInfoV, int)> {
    match dec_u32(s, i) {
        None => None,
        Some((id, i1)) => match dec_arr(s, i1, 6) {
            None => None,
            Some((peer_address, i2)) => match dec_opt_key(s, i2) {
                None => None,
                Some((lmk, i3)) => match dec_opt_u8(s, i3) {
                    None => None,
                    Some((channel, i4)) => match dec_bool(s, i4) {
                        None => None,
                        Some((encrypt, i5)) => Some(
                            (PeerInfoV { id, peer_address, lmk, channel, encrypt }, i5),
                        ),
                    },
                },
            },
        },
    }
}

/// Reads a peer-removal payload.
pub open spec fn dec_peer_address(s: Seq<u8>, i: int) -> Option<(PeerAddressV, int)> {
    match dec_u32(s, i) {
        None => None,
        Some((id, i1)) => match dec_arr(s, i1, 6) {
            None => None,
            Some((address, i2)) => Some((PeerAddressV { id, address }, i2)),
        },
    }
}

/// Reads an acknowledgement payload.
pub open spec fn dec_ack(s: Seq<u8>, i: int) -> Option<(AckV, int)> {
    match dec_u32(s, i) {
        None => None,
        Some((id, i1)) => match dec_u32(s, i1) {
            None => None,
            Some((rx_id, i2)) => match dec_bool(s, i2) {
                None => None,
                Some((status, i3)) => Some((AckV { id, rx_id, status }, i3)),
            },
        },
    }
}

/// The envelope decoded from a byte sequence: the discriminant byte picks
/// the variant, whose payload follows. Bytes past the message are
/// ignored, as the transport may pad a frame.
pub open spec fn dec_msg(s: Seq<u8>) -> Option<MsgV> {
    match dec_byte(s, 0) {
        None => None,
        Some((tag, i)) => if tag == 0 {
            match dec_init(s, i) {
                None => None,
                Some((v, _)) => Some(MsgV::Init(v)),
            }
        } else if tag == 1 {
            match dec_hub_config(s, i) {
                None => None,
                Some((v, _)) => Some(MsgV::HubConfig(v)),
            }
        } else if tag == 2 {
            match dec_send(s, i) {
                None => None,
                Some((v, _)) => Some(MsgV::Send(v)),
            }
        } else if tag == 3 {
            match dec_recv(s, i) {
                None => None,
                Some((v, _)) => Some(MsgV::Recv(v)),
            }
        } else if tag == 4 {
            match dec_broadcast(s, i) {
                None => None,
                Some((v, _)) => Some(MsgV::Broadcast(v)),
            }
        } else if tag == 5 {
            match dec_peer_info(s, i) {
                None => None,
                Some((v, _)) => Some(MsgV::AddPeer(v)),
            }
        } else if tag == 6 {
            match dec_peer_info(s, i) {
                None => None,
                Some((v, _)) => Some(MsgV::ModifyPeer(v)),
            }
        } else if tag == 7 {
            match dec_peer_address(s, i) {
                None => None,
                Some((v, _)) => Some(MsgV::RemovePeer(v)),
            }
        } else if tag == 8 {
            match dec_ack(s, i) {
                None => None,
                Some((v, _)) => Some(MsgV::Ack(v)),
            }
        } else {
            None
        },
    }
}

// ---------------------------------------------------------------------
// Round-trip: decoding an encoding yields the encoded value.
// ---------------------------------------------------------------------
/// When a window of `s` holds `a + b`, its two halves hold `a` and `b`.
proof fn lemma_split(s: Seq<u8>, i: int, a: Seq<u8>, b: Seq<u8>)
    requires
        0 <= i,
        i + a.len() + b.len() <= s.len(),
        s.subrange(i, i + a.len() + b.len()) == a + b,
    ensures
        s.subrange(i, i + a.len()) == a,
        s.subrange(i + a.len(), i + a.len() + b.len()) == b,
{
    assert(s.subrange(i, i + a.len()) =~= a) by {
        assert forall|t: int| 0 <= t < a.len() implies s.subrange(i, i + a.len())[t] == a[t] by {
            assert(s.subrange(i, i + a.len() + b.len())[t] == (a + b)[t]);
        }
    }
    assert(s.subrange(i + a.len(), i + a.len() + b.len()) =~= b) by {
        assert forall|t: int| 0 <= t < b.len() implies s.subrange(
            i + a.len(),
            i + a.len() + b.len(),
        )[t] == b[t] by {
            assert(s.subrange(i, i + a.len() + b.len())[a.len() + t] == (a + b)[a.len() + t]);
            assert(s.subrange(i + a.len(), i + a.len() + b.len())[t] == s[i + a.len() + t]);
            assert((a + b)[a.len() + t] == b[t]);
        }
    }
}

/// `0x80` to the `k`-th power: the count of values whose varint fits in
/// `k` bytes.
spec fn pow128(k: nat) -> nat
    decreases k,
{
    if k == 0 {
        1
    } else {
        0x80 * pow128((k - 1) as nat)
    }
}

/// A value below `0x80^k` has a varint of at most `k` bytes.
proof fn lemma_varint_len_bound(n: nat, k: nat)
    requires
        n < pow128(k),
        k >= 1,
    ensures
        spec_varint(n).len() <= k,
    decreases k,
{
    if n < 0x80 {
    } else {
        assert(pow128(k) == 0x80 * pow128((k - 1) as nat));
        if k == 1 {
            assert(pow128(0) == 1);
            assert(false);
        } else {
            assert(n / 0x80 < pow128((k - 1) as nat)) by (nonlinear_arith)
                requires
                    n < 0x80 * pow128((k - 1) as nat),
            ;
            lemma_varint_len_bound(n / 0x80, (k - 1) as nat);
        }
    }
}

/// A `u32`-sized value has a varint of one to five bytes.
proof fn lemma_varint_len_u32(n: nat)
    requires
        n <= u32::MAX,
    ensures
        1 <= spec_varint(n).len() <= 5,
{
    assert(pow128(0) == 1);
    assert(pow128(1) == 0x80);
    assert(pow128(2) == 0x4000);
    assert(pow128(3) == 0x200000);
    assert(pow128(4) == 0x10000000);
    assert(pow128(5) == 0x800000000);
    lemma_varint_len_bound(n, 5);
}

/// Reading a varint back from its encoding yields the encoded value.
proof fn lemma_dec_varint_nat(s: Seq<u8>, i: int, k: nat, n: nat)
    requires
        0 <= i,
        i + spec_varint(n).len() <= s.len(),
        s.subrange(i, i + spec_varint(n).len()) == spec_varint(n),
        spec_varint(n).len() + k <= 5,
    ensures
        dec_varint_nat(s, i, k) == Some((n, i + spec_varint(n).len())),
    decreases n,
{
    let e = spec_varint(n);
    assert(s[i] == e[0]) by {
        assert(s.subrange(i, i + e.len())[0] == e[0]);
    }
    if n < 0x80 {
    } else {
        let rest = spec_varint(n / 0x80);
        lemma_split(s, i, seq![(0x80 + n % 0x80) as u8], rest);
        assert(n / 0x80 < n) by (nonlinear_arith)
            requires
                n >= 0x80,
        ;
        lemma_dec_varint_nat(s, i + 1, k + 1, n / 0x80);
        assert((s[i] - 0x80) as nat + 0x80 * (n / 0x80) == n) by {
            assert(s[i] == (0x80 + n % 0x80) as u8);
            assert(n == 0x80 * (n / 0x80) + n % 0x80) by (nonlinear_arith);
        }
    }
}

/// Reading a `u32` back from its encoding yields the encoded value.
proof fn lemma_dec_u32_enc(s: Seq<u8>, i: int, x: u32)
    requires
        0 <= i,
        i + enc_u32(x).len() <= s.len(),
        s.subrange(i, i + enc_u32(x).len()) == enc_u32(x),
    ensures
        dec_u32(s, i) == Some((x, i + enc_u32(x).len())),
{
    lemma_varint_len_u32(x as nat);
    lemma_dec_varint_nat(s, i, 0, x as nat);
}

/// Reading a `u16` back from its encoding yields the encoded value.
proof fn lemma_dec_u16_enc(s: Seq<u8>, i: int, x: u16)
    requires
        0 <= i,
        i + enc_u16(x).len() <= s.len(),
        s.subrange(i, i + enc_u16(x).len()) == enc_u16(x),
    ensures
        dec_u16(s, i) == Some((x, i + enc_u16(x).len())),
{
    lemma_varint_len_u32(x as nat);
    lemma_dec_varint_nat(s, i, 0, x as nat);
}

/// The zigzag fold of any `i32` fits a `u32`.
proof fn lemma_zigzag_range(x: i32)
    ensures
        spec_zigzag(x) <= u32::MAX,
{
}

/// Unfolding a zigzag fold yields the folded value.
proof fn lemma_unzigzag_zigzag(x: i32)
    ensures
        spec_unzigzag(spec_zigzag(x) as u32) == x,
{
    lemma_zigzag_range(x);
}

/// Reading an `i32` back from its encoding yields the encoded value.
proof fn lemma_dec_i32_enc(s: Seq<u8>, i: int, x: i32)
    requires
        0 <= i,
        i + enc_i32(x).len() <= s.len(),
        s.subrange(i, i + enc_i32(x).len()) == enc_i32(x),
    ensures
        dec_i32(s, i) == Some((x, i + enc_i32(x).len())),
{
    lemma_zigzag_range(x);
    lemma_varint_len_u32(spec_zigzag(x));
    lemma_dec_varint_nat(s, i, 0, spec_zigzag(x));
    lemma_unzigzag_zigzag(x);
}

/// Reading a byte back from its encoding yields the encoded value.
proof fn lemma_dec_byte_enc(s: Seq<u8>, i: int, c: u8)
    requires
        0 <= i,
        i + 1 <= s.len(),
        s.subrange(i, i + 1) == seq![c],
    ensures
        dec_byte(s, i) == Some((c, i + 1)),
{
    assert(s.subrange(i, i + 1)[0] == c);
}

/// Reading a `bool` back from its encoding yields the encoded value.
proof fn lemma_dec_bool_enc(s: Seq<u8>, i: int, b: bool)
    requires
        0 <= i,
        i + enc_bool(b).len() <= s.len(),
        s.subrange(i, i + enc_bool(b).len()) == enc_bool(b),
    ensures
        dec_bool(s, i) == Some((b, i + enc_bool(b).len())),
{
    if b {
        lemma_dec_byte_enc(s, i, 1);
    } else {
        lemma_dec_byte_enc(s, i, 0);
    }
}

/// Reading raw bytes back from their encoding yields them.
proof fn lemma_dec_arr_enc(s: Seq<u8>, i: int, a: Seq<u8>)
    requires
        0 <= i,
        i + a.len() <= s.len(),
        s.subrange(i, i + a.len()) == a,
    ensures
        dec_arr(s, i, a.len() as int) == Some((a, i + a.len())),
{
}

/// Reading a payload back from its length-prefixed encoding yields it.
proof fn lemma_dec_data_enc(s: Seq<u8>, i: int, d: Seq<u8>)
    requires
        0 <= i,
        d.len() <= MAX_DATA_LEN,
        i + enc_bytes(d).len() <= s.len(),
        s.subrange(i, i + enc_bytes(d).len()) == enc_bytes(d),
    ensures
        dec_data(s, i) == Some((d, i + enc_bytes(d).len())),
{
    let lv = spec_varint(d.len());
    lemma_split(s, i, lv, d);
    lemma_varint_len_u32(d.len());
    lemma_dec_varint_nat(s, i, 0, d.len());
    lemma_dec_arr_enc(s, i + lv.len(), d);
}

/// Reading an optional byte back from its encoding yields it.
proof fn lemma_dec_opt_u8_enc(s: Seq<u8>, i: int, o: Option<u8>)
    requires
        0 <= i,
        i + enc_opt_u8(o).len() <= s.len(),
        s.subrange(i, i + enc_opt_u8(o).len()) == enc_opt_u8(o),
    ensures
        dec_opt_u8(s, i) == Some((o, i + enc_opt_u8(o).len())),
{
    match o {
        None => {
            lemma_dec_byte_enc(s, i, 0);
        },
        Some(v) => {
            lemma_split(s, i, seq![1u8], seq![v]);
            lemma_dec_byte_enc(s, i, 1);
            lemma_dec_byte_enc(s, i + 1, v);
        },
    }
}

/// Reading an optional `u16` back from its encoding yields it.
proof fn lemma_dec_opt_u16_enc(s: Seq<u8>, i: int, o: Option<u16>)
    requires
        0 <= i,
        i + enc_opt_u16(o).len() <= s.len(),
        s.subrange(i, i + enc_opt_u16(o).len()) == enc_opt_u16(o),
    ensures
        dec_opt_u16(s, i) == Some((o, i + enc_opt_u16(o).len())),
{
    match o {
        None => {
            lemma_dec_byte_enc(s, i, 0);
        },
        Some(v) => {
            lemma_split(s, i, seq![1u8], enc_u16(v));
            lemma_dec_byte_enc(s, i, 1);
            lemma_dec_u16_enc(s, i + 1, v);
        },
    }
}

/// Reading an optional `u32` back from its encoding yields it.
proof fn lemma_dec_opt_u32_enc(s: Seq<u8>, i: int, o: Option<u32>)
    requires
        0 <= i,
        i + enc_opt_u32(o).len() <= s.len(),
        s.subrange(i, i + enc_opt_u32(o).len()) == enc_opt_u32(o),
    ensures
        dec_opt_u32(s, i) == Some((o, i + enc_opt_u32(o).len())),
{
    match o {
        None => {
            lemma_dec_byte_enc(s, i, 0);
        },
        Some(v) => {
            lemma_split(s, i, seq![1u8], enc_u32(v));
            lemma_dec_byte_enc(s, i, 1);
            lemma_dec_u32_enc(s, i + 1, v);
        },
    }
}

/// Reading an optional key back from its encoding yields it.
proof fn lemma_dec_opt_key_enc(s: Seq<u8>, i: int, o: Option<Seq<u8>>)
    requires
        0 <= i,
        o matches Some(key) ==> key.len() == 16,
        i + enc_opt_key(o).len() <= s.len(),
        s.subrange(i, i + enc_opt_key(o).len()) == enc_opt_key(o),
    ensures
        dec_opt_key(s, i) == Some((o, i + enc_opt_key(o).len())),
{
    match o {
        None => {
            lemma_dec_byte_enc(s, i, 0);
        },
        Some(key) => {
            lemma_split(s, i, seq![1u8], key);
            lemma_dec_byte_enc(s, i, 1);
            lemma_dec_arr_enc(s, i + 1, key);
        },
    }
}

/// Reading an optional rate back from its encoding yields it.
proof fn lemma_dec_opt_rate_enc(s: Seq<u8>, i: int, o: Option<WifiPhyRate>)
    requires
        0 <= i,
        i + enc_opt_rate(o).len() <= s.len(),
        s.subrange(i, i + enc_opt_rate(o).len()) == enc_opt_rate(o),
    ensures
        dec_opt_rate(s, i) == Some((o, i + enc_opt_rate(o).len())),
{
    match o {
        None => {
            lemma_dec_byte_enc(s, i, 0);
        },
        Some(r) => {
            lemma_split(s, i, seq![1u8], enc_u32(spec_rate_index(r)));
            lemma_dec_byte_enc(s, i, 1);
            lemma_dec_u32_enc(s, i + 1, spec_rate_index(r));
            crate::types::rate::lemma_rate_index_round_trip(r, 0);
        },
    }
}

/// Reading a handshake payload back from its encoding yields it.
proof fn lemma_dec_init_enc(s: Seq<u8>, i: int, v: InitConfigV)
    requires
        0 <= i,
        v.wf(),
        i + enc_init(v).len() <= s.len(),
        s.subrange(i, i + enc_init(v).len()) == enc_init(v),
    ensures
        dec_init(s, i) == Some((v, i + enc_init(v).len())),
{
    let e1 = enc_u32(v.id);
    let e2 = enc_u32(v.api_version);
    let e3 = enc_u32(v.now_version);
    let e4 = seq![v.channel];
    let e5 = v.address;
    lemma_split(s, i, e1 + e2 + e3 + e4, e5);
    lemma_split(s, i, e1 + e2 + e3, e4);
    lemma_split(s, i, e1 + e2, e3);
    lemma_split(s, i, e1, e2);
    lemma_dec_u32_enc(s, i, v.id);
    lemma_dec_u32_enc(s, i + e1.len(), v.api_version);
    lemma_dec_u32_enc(s, i + e1.len() + e2.len(), v.now_version);
    lemma_dec_byte_enc(s, i + e1.len() + e2.len() + e3.len(), v.channel);
    lemma_dec_arr_enc(s, i + e1.len() + e2.len() + e3.len() + 1, v.address);
}

/// Reading a configuration payload back from its encoding yields it.
proof fn lemma_dec_hub_config_enc(s: Seq<u8>, i: int, v: HubConfigV)
    requires
        0 <= i,
        v.wf(),
        i + enc_hub_config(v).len() <= s.len(),
        s.subrange(i, i + enc_hub_config(v).len()) == enc_hub_config(v),
    ensures
        dec_hub_config(s, i) == Some((v, i + enc_hub_config(v).len())),
{
    let e1 = enc_u32(v.id);
    let e2 = enc_opt_u8(v.channel);
    let e3 = enc_opt_key(v.pmk);
    let e4 = enc_opt_u16(v.wake_window);
    let e5 = enc_opt_rate(v.rate);
    lemma_split(s, i, e1 + e2 + e3 + e4, e5);
    lemma_split(s, i, e1 + e2 + e3, e4);
    lemma_split(s, i, e1 + e2, e3);
    lemma_split(s, i, e1, e2);
    lemma_dec_u32_enc(s, i, v.id);
    lemma_dec_opt_u8_enc(s, i + e1.len(), v.channel);
    lemma_dec_opt_key_enc(s, i + e1.len() + e2.len(), v.pmk);
    lemma_dec_opt_u16_enc(s, i + e1.len() + e2.len() + e3.len(), v.wake_window);
    lemma_dec_opt_rate_enc(s, i + e1.len() + e2.len() + e3.len() + e4.len(), v.rate);
}

/// Reading a unicast send payload back from its encoding yields it.
proof fn lemma_dec_send_enc(s: Seq<u8>, i: int, v: TxDataV)
    requires
        0 <= i,
        v.wf(),
        i + enc_send(v).len() <= s.len(),
        s.subrange(i, i + enc_send(v).len()) == enc_send(v),
    ensures
        dec_send(s, i) == Some((v, i + enc_send(v).len())),
{
    let e1 = enc_u32(v.id);
    let e2 = v.dst_addr;
    let e3 = enc_bytes(v.data);
    let e4 = enc_bool(v.defer);
    lemma_split(s, i, e1 + e2 + e3, e4);
    lemma_split(s, i, e1 + e2, e3);
    lemma_split(s, i, e1, e2);
    lemma_dec_u32_enc(s, i, v.id);
    lemma_dec_arr_enc(s, i + e1.len(), v.dst_addr);
    lemma_dec_data_enc(s, i + e1.len() + e2.len(), v.data);
    lemma_dec_bool_enc(s, i + e1.len() + e2.len() + e3.len(), v.defer);
}

/// Reading a received-frame payload back from its encoding yields it.
proof fn lemma_dec_recv_enc(s: Seq<u8>, i: int, v: RxDataV)
    requires
        0 <= i,
        v.wf(),
        i + enc_recv(v).len() <= s.len(),
        s.subrange(i, i + enc_recv(v).len()) == enc_recv(v),
    ensures
        dec_recv(s, i) == Some((v, i + enc_recv(v).len())),
{
    let e1 = enc_u32(v.id);
    let e2 = v.src_addr;
    let e3 = v.dst_addr;
    let e4 = enc_bytes(v.data);
    let e5 = enc_i32(v.rssi);
    lemma_split(s, i, e1 + e2 + e3 + e4, e5);
    lemma_split(s, i, e1 + e2 + e3, e4);
    lemma_split(s, i, e1 + e2, e3);
    lemma_split(s, i, e1, e2);
    lemma_dec_u32_enc(s, i, v.id);
    lemma_dec_arr_enc(s, i + e1.len(), v.src_addr);
    lemma_dec_arr_enc(s, i + e1.len() + e2.len(), v.dst_addr);
    lemma_dec_data_enc(s, i + e1.len() + e2.len() + e3.len(), v.data);
    lemma_dec_i32_enc(s, i + e1.len() + e2.len() + e3.len() + e4.len(), v.rssi);
}

/// Reading a broadcast payload back from its encoding yields it.
proof fn lemma_dec_broadcast_enc(s: Seq<u8>, i: int, v: BroadcastDataV)
    requires
        0 <= i,
        v.wf(),
        i + enc_broadcast(v).len() <= s.len(),
        s.subrange(i, i + enc_broadcast(v).len()) == enc_broadcast(v),
    ensures
        dec_broadcast(s, i) == Some((v, i + enc_broadcast(v).len())),
{
    let e1 = enc_u32(v.id);
    let e2 = enc_bytes(v.data);
    let e3 = enc_opt_u32(v.interval);
    lemma_split(s, i, e1 + e2, e3);
    lemma_split(s, i, e1, e2);
    lemma_dec_u32_enc(s, i, v.id);
    lemma_dec_data_enc(s, i + e1.len(), v.data);
    lemma_dec_opt_u32_enc(s, i + e1.len() + e2.len(), v.interval);
}

/// Reading a peer entry payload back from its encoding yields it.
proof fn lemma_dec_peer_info_enc(s: Seq<u8>, i: int, v: PeerInfoV)
    requires
        0 <= i,
        v.wf(),
        i + enc_peer_info(v).len() <= s.len(),
        s.subrange(i, i + enc_peer_info(v).len()) == enc_peer_info(v),
    ensures
        dec_peer_info(s, i) == Some((v, i + enc_peer_info(v).len())),
{
    let e1 = enc_u32(v.id);
    let e2 = v.peer_address;
    let e3 = enc_opt_key(v.lmk);
    let e4 = enc_opt_u8(v.channel);
    let e5 = enc_bool(v.encrypt);
    lemma_split(s, i, e1 + e2 + e3 + e4, e5);
    lemma_split(s, i, e1 + e2 + e3, e4);
    lemma_split(s, i, e1 + e2, e3);
    lemma_split(s, i, e1, e2);
    lemma_dec_u32_enc(s, i, v.id);
    lemma_dec_arr_enc(s, i + e1.len(), v.peer_address);
    lemma_dec_opt_key_enc(s, i + e1.len() + e2.len(), v.lmk);
    lemma_dec_opt_u8_enc(s, i + e1.len() + e2.len() + e3.len(), v.channel);
    lemma_dec_bool_enc(s, i + e1.len() + e2.len() + e3.len() + e4.len(), v.encrypt);
}

/// Reading a peer-removal payload back from its encoding yields it.
proof fn lemma_dec_peer_address_enc(s: Seq<u8>, i: int, v: PeerAddressV)
    requires
        0 <= i,
        v.wf(),
        i + enc_peer_address(v).len() <= s.len(),
        s.subrange(i, i + enc_peer_address(v).len()) == enc_peer_address(v),
    ensures
        dec_peer_address(s, i) == Some((v, i + enc_peer_address(v).len())),
{
    let e1 = enc_u32(v.id);
    let e2 = v.address;
    lemma_split(s, i, e1, e2);
    lemma_dec_u32_enc(s, i, v.id);
    lemma_dec_arr_enc(s, i + e1.len(), v.address);
}

/// Reading an acknowledgement payload back from its encoding yields it.
proof fn lemma_dec_ack_enc(s: Seq<u8>, i: int, v: AckV)
    requires
        0 <= i,
        i + enc_ack(v).len() <= s.len(),
        s.subrange(i, i + enc_ack(v).len()) == enc_ack(v),
    ensures
        dec_ack(s, i) == Some((v, i + enc_ack(v).len())),
{
    let e1 = enc_u32(v.id);
    let e2 = enc_u32(v.rx_id);
    let e3 = enc_bool(v.status);
    lemma_split(s, i, e1 + e2, e3);
    lemma_split(s, i, e1, e2);
    lemma_dec_u32_enc(s, i, v.id);
    lemma_dec_u32_enc(s, i + e1.len(), v.rx_id);
    lemma_dec_bool_enc(s, i + e1.len() + e2.len(), v.status);
}

/// Law: the codec round-trips. For every constructible envelope model,
/// decoding its wire form yields the model back, structurally equal in
/// every field.
pub proof fn lemma_msg_round_trip(v: MsgV)
    requires
        v.wf(),
    ensures
        dec_msg(enc_msg(v)) == Some(v),
{
    let s = enc_msg(v);
    assert(s.subrange(0, s.len() as int) =~= s);
    match v {
        MsgV::Init(p) => {
            lemma_split(s, 0, seq![spec_tag(v)], enc_init(p));
            lemma_dec_byte_enc(s, 0, spec_tag(v));
            lemma_dec_init_enc(s, 1, p);
        },
        MsgV::HubConfig(p) => {
            lemma_split(s, 0, seq![spec_tag(v)], enc_hub_config(p));
            lemma_dec_byte_enc(s, 0, spec_tag(v));
            lemma_dec_hub_config_enc(s, 1, p);
        },
        MsgV::Send(p) => {
            lemma_split(s, 0, seq![spec_tag(v)], enc_send(p));
            lemma_dec_byte_enc(s, 0, spec_tag(v));
            lemma_dec_send_enc(s, 1, p);
        },
        MsgV::Recv(p) => {
            lemma_split(s, 0, seq![spec_tag(v)], enc_recv(p));
            lemma_dec_byte_enc(s, 0, spec_tag(v));
            lemma_dec_recv_enc(s, 1, p);
        },
        MsgV::Broadcast(p) => {
            lemma_split(s, 0, seq![spec_tag(v)], enc_broadcast(p));
            lemma_dec_byte_enc(s, 0, spec_tag(v));
            lemma_dec_broadcast_enc(s, 1, p);
        },
        MsgV::AddPeer(p) => {
            lemma_split(s, 0, seq![spec_tag(v)], enc_peer_info(p));
            lemma_dec_byte_enc(s, 0, spec_tag(v));
            lemma_dec_peer_info_enc(s, 1, p);
        },
        MsgV::ModifyPeer(p) => {
            lemma_split(s, 0, seq![spec_tag(v)], enc_peer_info(p));
            lemma_dec_byte_enc(s, 0, spec_tag(v));
            lemma_dec_peer_info_enc(s, 1, p);
        },
        MsgV::RemovePeer(p) => {
            lemma_split(s, 0, seq![spec_tag(v)], enc_peer_address(p));
            lemma_dec_byte_enc(s, 0, spec_tag(v));
            lemma_dec_peer_address_enc(s, 1, p);
        },
        MsgV::Ack(p) => {
            lemma_split(s, 0, seq![spec_tag(v)], enc_ack(p));
            lemma_dec_byte_enc(s, 0, spec_tag(v));
            lemma_dec_ack_enc(s, 1, p);
        },
    }
}

/// Law: a bound on every wire form. No constructible envelope encodes to
/// more than 275 bytes; the received-frame variant with a full payload
/// and five-byte varints dominates.
pub proof fn lemma_enc_msg_len(v: MsgV)
    requires
        v.wf(),
    ensures
        enc_msg(v).len() <= 275,
{
    assert(pow128(0) == 1);
    assert(pow128(1) == 0x80);
    assert(pow128(2) == 0x4000);
    match v {
        MsgV::Init(p) => {
            lemma_varint_len_u32(p.id as nat);
            lemma_varint_len_u32(p.api_version as nat);
            lemma_varint_len_u32(p.now_version as nat);
        },
        MsgV::HubConfig(p) => {
            lemma_varint_len_u32(p.id as nat);
            if let Some(w) = p.wake_window {
                lemma_varint_len_u32(w as nat);
            }
            if let Some(r) = p.rate {
                lemma_varint_len_u32(spec_rate_index(r) as nat);
            }
        },
        MsgV::Send(p) => {
            lemma_varint_len_u32(p.id as nat);
            lemma_varint_len_bound(p.data.len(), 2);
        },
        MsgV::Recv(p) => {
            lemma_varint_len_u32(p.id as nat);
            lemma_varint_len_bound(p.data.len(), 2);
            lemma_zigzag_range(p.rssi);
            lemma_varint_len_u32(spec_zigzag(p.rssi));
        },
        MsgV::Broadcast(p) => {
            lemma_varint_len_u32(p.id as nat);
            lemma_varint_len_bound(p.data.len(), 2);
            if let Some(t) = p.interval {
                lemma_varint_len_u32(t as nat);
            }
        },
        MsgV::AddPeer(p) => {
            lemma_varint_len_u32(p.id as nat);
        },
        MsgV::ModifyPeer(p) => {
            lemma_varint_len_u32(p.id as nat);
        },
        MsgV::RemovePeer(p) => {
            lemma_varint_len_u32(p.id as nat);
        },
        MsgV::Ack(p) => {
            lemma_varint_len_u32(p.id as nat);
            lemma_varint_len_u32(p.rx_id as nat);
        },
    }
}

// ---------------------------------------------------------------------
// The executable encoder. Each helper appends one field's wire form.
// ---------------------------------------------------------------------
/// Appends the varint form of `x`.
fn put_varint(out: &mut Vec<u8>, x: u32)
    ensures
        final (out)@ == old(out)@ + spec_varint(x as nat),
    decreases x,
{
    if x < 0x80 {
        out.push(x as u8);
        proof {
            assert(final (out)@ =~= old(out)@ + spec_varint(x as nat));
        }
    } else {
        out.push((0x80 + x % 0x80) as u8);
        put_varint(out, x / 0x80);
        proof {
            assert((0x80 + x % 0x80) as u8 == (0x80 + (x as nat) % 0x80) as u8);
            assert(final (out)@ =~= old(out)@ + spec_varint(x as nat));
        }
    }
}

/// Appends a single raw byte.
fn put_byte(out: &mut Vec<u8>, b: u8)
    ensures
        final (out)@ == old(out)@ + seq![b],
{
    out.push(b);
    proof {
        assert(final (out)@ =~= old(out)@ + seq![b]);
    }
}

/// Appends the wire form of a `bool`.
fn put_bool(out: &mut Vec<u8>, b: bool)
    ensures
        final (out)@ == old(out)@ + enc_bool(b),
{
    if b {
        put_byte(out, 1);
    } else {
        put_byte(out, 0);
    }
}

/// Appends the zigzag varint form of an `i32`.
fn put_i32(out: &mut Vec<u8>, x: i32)
    ensures
        final (out)@ == old(out)@ + enc_i32(x),
{
    let z: u32 = if x >= 0 {
        (x as u32) * 2
    } else {
        let m = (-(x as i64 + 1)) as u32;
        m * 2 + 1
    };
    proof {
        assert(z as nat == spec_zigzag(x));
    }
    put_varint(out, z);
}

/// Appends raw bytes unchanged.
fn put_raw(out: &mut Vec<u8>, s: &[u8])
    ensures
        final (out)@ == old(out)@ + s@,
{
    out.extend_from_slice(s);
    proof {
        assert(final (out)@ =~= old(out)@ + s@);
    }
}

/// Appends a length-prefixed byte payload.
fn put_bytes(out: &mut Vec<u8>, s: &[u8])
    requires
        s@.len() <= u32::MAX,
    ensures
        final (out)@ == old(out)@ + enc_bytes(s@),
{
    put_varint(out, s.len() as u32);
    put_raw(out, s);
    proof {
        assert(final (out)@ =~= old(out)@ + enc_bytes(s@));
    }
}

/// Appends an optional single-byte field.
fn put_opt_u8(out: &mut Vec<u8>, o: Option<u8>)
    ensures
        final (out)@ == old(out)@ + enc_opt_u8(o),
{
    match o {
        None => put_byte(out, 0),
        Some(v) => {
            put_byte(out, 1);
            put_byte(out, v);
            proof {
                assert(final (out)@ =~= old(out)@ + enc_opt_u8(o));
            }
        },
    }
}

/// Appends an optional `u16` field.
fn put_opt_u16(out: &mut Vec<u8>, o: Option<u16>)
    ensures
        final (out)@ == old(out)@ + enc_opt_u16(o),
{
    match o {
        None => put_byte(out, 0),
        Some(v) => {
            put_byte(out, 1);
            put_varint(out, v as u32);
            proof {
                assert(final (out)@ =~= old(out)@ + enc_opt_u16(o));
            }
        },
    }
}

/// Appends an optional `u32` field.
fn put_opt_u32(out: &mut Vec<u8>, o: Option<u32>)
    ensures
        final (out)@ == old(out)@ + enc_opt_u32(o),
{
    match o {
        None => put_byte(out, 0),
        Some(v) => {
            put_byte(out, 1);
            put_varint(out, v);
            proof {
                assert(final (out)@ =~= old(out)@ + enc_opt_u32(o));
            }
        },
    }
}

/// Model of an optional 16-byte key, as the codec sees it.
pub open spec fn opt_key_view(o: Option<[u8; 16]>) -> Option<Seq<u8>> {
    match o {
        Some(k) => Some(k@),
        None => None,
    }
}

/// Appends an optional 16-byte key field.
fn put_opt_key(out: &mut Vec<u8>, o: &Option<[u8; 16]>)
    ensures
        final (out)@ == old(out)@ + enc_opt_key(opt_key_view(*o)),
{
    match o {
        None => put_byte(out, 0),
        Some(k) => {
            put_byte(out, 1);
            put_raw(out, k.as_slice());
            proof {
                assert(final (out)@ =~= old(out)@ + enc_opt_key(opt_key_view(*o)));
            }
        },
    }
}

/// Appends an optional rate field.
fn put_opt_rate(out: &mut Vec<u8>, o: Option<WifiPhyRate>)
    ensures
        final (out)@ == old(out)@ + enc_opt_rate(o),
{
    match o {
        None => put_byte(out, 0),
        Some(r) => {
            put_byte(out, 1);
            put_varint(out, r.to_index());
            proof {
                assert(final (out)@ =~= old(out)@ + enc_opt_rate(o));
            }
        },
    }
}

/// Appends a handshake payload.
fn put_init(out: &mut Vec<u8>, p: &crate::types::init_config::InitConfig)
    ensures
        final (out)@ == old(out)@ + enc_init(p@),
{
    put_varint(out, p.id);
    put_varint(out, p.api_version);
    put_varint(out, p.now_version);
    put_byte(out, p.channel);
    put_raw(out, p.address.as_slice());
    proof {
        assert(final (out)@ =~= old(out)@ + enc_init(p@));
    }
}

/// Appends a configuration payload.
fn put_hub_config(out: &mut Vec<u8>, p: &crate::types::hub_config::HubConfig)
    ensures
        final (out)@ == old(out)@ + enc_hub_config(p@),
{
    put_varint(out, p.id);
    put_opt_u8(out, p.channel);
    put_opt_key(out, &p.pmk);
    put_opt_u16(out, p.wake_window);
    put_opt_rate(out, p.rate);
    proof {
        assert(final (out)@ =~= old(out)@ + enc_hub_config(p@));
    }
}

/// Appends a unicast send payload.
fn put_send(out: &mut Vec<u8>, p: &crate::types::tx_data::TxData)
    ensures
        final (out)@ == old(out)@ + enc_send(p@),
        p@.wf(),
{
    proof {
        use_type_invariant(&p.data);
    }
    put_varint(out, p.id);
    put_raw(out, p.dst_addr.as_slice());
    put_bytes(out, p.data.as_slice());
    put_bool(out, p.defer);
    proof {
        assert(final (out)@ =~= old(out)@ + enc_send(p@));
    }
}

/// Appends a received-frame payload.
fn put_recv(out: &mut Vec<u8>, p: &crate::types::rx_data::RxData)
    ensures
        final (out)@ == old(out)@ + enc_recv(p@),
        p@.wf(),
{
    proof {
        use_type_invariant(&p.data);
    }
    put_varint(out, p.id);
    put_raw(out, p.src_addr.as_slice());
    put_raw(out, p.dst_addr.as_slice());
    put_bytes(out, p.data.as_slice());
    put_i32(out, p.rssi);
    proof {
        assert(final (out)@ =~= old(out)@ + enc_recv(p@));
    }
}

/// Appends a broadcast payload.
fn put_broadcast(out: &mut Vec<u8>, p: &crate::types::broadcast::BroadcastData)
    ensures
        final (out)@ == old(out)@ + enc_broadcast(p@),
        p@.wf(),
{
    proof {
        use_type_invariant(&p.data);
    }
    put_varint(out, p.id);
    put_bytes(out, p.data.as_slice());
    put_opt_u32(out, p.interval);
    proof {
        assert(final (out)@ =~= old(out)@ + enc_broadcast(p@));
    }
}

/// Appends a peer entry payload.
fn put_peer_info(out: &mut Vec<u8>, p: &crate::types::peer::PeerInfo)
    ensures
        final (out)@ == old(out)@ + enc_peer_info(p@),
{
    put_varint(out, p.id);
    put_raw(out, p.peer_address.as_slice());
    put_opt_key(out, &p.lmk);
    put_opt_u8(out, p.channel);
    put_bool(out, p.encrypt);
    proof {
        assert(final (out)@ =~= old(out)@ + enc_peer_info(p@));
    }
}

/// Appends a peer-removal payload.
fn put_peer_address(out: &mut Vec<u8>, p: &crate::types::peer::PeerAddress)
    ensures
        final (out)@ == old(out)@ + enc_peer_address(p@),
{
    put_varint(out, p.id);
    put_raw(out, p.address.as_slice());
    proof {
        assert(final (out)@ =~= old(out)@ + enc_peer_address(p@));
    }
}

/// Appends an acknowledgement payload.
fn put_ack(out: &mut Vec<u8>, p: &crate::types::ack::Ack)
    ensures
        final (out)@ == old(out)@ + enc_ack(p@),
{
    put_varint(out, p.id);
    put_varint(out, p.rx_id);
    put_bool(out, p.status);
    proof {
        assert(final (out)@ =~= old(out)@ + enc_ack(p@));
    }
}

/// Appends the full wire form of an envelope: discriminant byte, then the
/// variant's payload fields in schema order.
pub fn encode_msg(m: &crate::types::msg::Msg, out: &mut Vec<u8>)
    ensures
        final (out)@ == old(out)@ + enc_msg(m@),
        m@.wf(),
{
    match m {
        crate::types::msg::Msg::Init(p) => {
            put_byte(out, 0);
            put_init(out, p);
            proof {
                assert(final (out)@ =~= old(out)@ + enc_msg(m@));
            }
        },
        crate::types::msg::Msg::HubConfig(p) => {
            put_byte(out, 1);
            put_hub_config(out, p);
            proof {
                assert(final (out)@ =~= old(out)@ + enc_msg(m@));
            }
        },
        crate::types::msg::Msg::Send(p) => {
            put_byte(out, 2);
            put_send(out, p);
            proof {
                assert(final (out)@ =~= old(out)@ + enc_msg(m@));
            }
        },
        crate::types::msg::Msg::Recv(p) => {
            put_byte(out, 3);
            put_recv(out, p);
            proof {
                assert(final (out)@ =~= old(out)@ + enc_msg(m@));
            }
        },
        crate::types::msg::Msg::Broadcast(p) => {
            put_byte(out, 4);
            put_broadcast(out, p);
            proof {
                assert(final (out)@ =~= old(out)@ + enc_msg(m@));
            }
        },
        crate::types::msg::Msg::AddPeer(p) => {
            put_byte(out, 5);
            put_peer_info(out, p);
            proof {
                assert(final (out)@ =~= old(out)@ + enc_msg(m@));
            }
        },
        crate::types::msg::Msg::ModifyPeer(p) => {
            put_byte(out, 6);
            put_peer_info(out, p);
            proof {
                assert(final (out)@ =~= old(out)@ + enc_msg(m@));
            }
        },
        crate::types::msg::Msg::RemovePeer(p) => {
            put_byte(out, 7);
            put_peer_address(out, p);
            proof {
                assert(final (out)@ =~= old(out)@ + enc_msg(m@));
            }
        },
        crate::types::msg::Msg::Ack(p) => {
            put_byte(out, 8);
            put_ack(out, p);
            proof {
                assert(final (out)@ =~= old(out)@ + enc_msg(m@));
            }
        },
    }
}

// ---------------------------------------------------------------------
// The executable decoder. Each helper reads one field's wire form and
// agrees exactly with the corresponding specification decoder.
// ---------------------------------------------------------------------
/// Reads one raw byte.
fn take_byte(s: &[u8], i: usize) -> (r: Result<(u8, usize), MsgError>)
    ensures
        match dec_byte(s@, i as int) {
            Some((v, j)) => r matches Ok(p) && p.0 == v && p.1 == j,
            None => r == Err::<(u8, usize), MsgError>(MsgError::FormatError),
        },
{
    if i < s.len() {
        Ok((s[i], i + 1))
    } else {
        Err(MsgError::FormatError)
    }
}

/// Reads a varint, at most `5 - k` bytes deep.
fn take_varint_rec(s: &[u8], i: usize, k: u32) -> (r: Result<(u32, usize), MsgError>)
    requires
        k <= 5,
    ensures
        match dec_varint_nat(s@, i as int, k as nat) {
            Some((v, j)) => if v <= u32::MAX {
                r matches Ok(p) && p.0 as nat == v && p.1 == j
            } else {
                r == Err::<(u32, usize), MsgError>(MsgError::FormatError)
            },
            None => r == Err::<(u32, usize), MsgError>(MsgError::FormatError),
        },
    decreases 5 - k,
{
    if k >= 5 || i >= s.len() {
        return Err(MsgError::FormatError);
    }
    let b = s[i];
    if b < 0x80 {
        Ok((b as u32, i + 1))
    } else {
        let (v, j) = take_varint_rec(s, i + 1, k + 1)?;
        let low = (b - 0x80) as u32;
        match v.checked_mul(0x80) {
            None => Err(MsgError::FormatError),
            Some(m) => match m.checked_add(low) {
                None => Err(MsgError::FormatError),
                Some(val) => Ok((val, j)),
            },
        }
    }
}

/// Reads a `u32` varint.
fn take_u32(s: &[u8], i: usize) -> (r: Result<(u32, usize), MsgError>)
    ensures
        match dec_u32(s@, i as int) {
            Some((v, j)) => r matches Ok(p) && p.0 == v && p.1 == j,
            None => r == Err::<(u32, usize), MsgError>(MsgError::FormatError),
        },
{
    take_varint_rec(s, i, 0)
}

/// Reads a `u16` varint.
fn take_u16(s: &[u8], i: usize) -> (r: Result<(u16, usize), MsgError>)
    ensures
        match dec_u16(s@, i as int) {
            Some((v, j)) => r matches Ok(p) && p.0 == v && p.1 == j,
            None => r == Err::<(u16, usize), MsgError>(MsgError::FormatError),
        },
{
    let (v, j) = take_u32(s, i)?;
    if v <= 0xFFFF {
        Ok((v as u16, j))
    } else {
        Err(MsgError::FormatError)
    }
}

/// Reads an `i32`: a varint, zigzag-unfolded.
fn take_i32(s: &[u8], i: usize) -> (r: Result<(i32, usize), MsgError>)
    ensures
        match dec_i32(s@, i as int) {
            Some((v, j)) => r matches Ok(p) && p.0 == v && p.1 == j,
            None => r == Err::<(i32, usize), MsgError>(MsgError::FormatError),
        },
{
    let (v, j) = take_u32(s, i)?;
    let x: i32 = if v % 2 == 0 {
        (v / 2) as i32
    } else {
        -((v / 2) as i32) - 1
    };
    proof {
        assert(x == spec_unzigzag(v));
    }
    Ok((x, j))
}

/// Reads a `bool` byte.
fn take_bool(s: &[u8], i: usize) -> (r: Result<(bool, usize), MsgError>)
    ensures
        match dec_bool(s@, i as int) {
            Some((v, j)) => r matches Ok(p) && p.0 == v && p.1 == j,
            None => r == Err::<(bool, usize), MsgError>(MsgError::FormatError),
        },
{
    let (b, j) = take_byte(s, i)?;
    if b == 0 {
        Ok((false, j))
    } else if b == 1 {
        Ok((true, j))
    } else {
        Err(MsgError::FormatError)
    }
}

/// Reads a 6-byte address.
fn take_addr(s: &[u8], i: usize) -> (r: Result<([u8; 6], usize), MsgError>)
    ensures
        match dec_arr(s@, i as int, 6) {
            Some((a, j)) => r matches Ok(p) && p.0@ == a && p.1 == j,
            None => r == Err::<([u8; 6], usize), MsgError>(MsgError::FormatError),
        },
{
    if i > s.len() || s.len() - i < 6 {
        return Err(MsgError::FormatError);
    }
    let a = [s[i], s[i + 1], s[i + 2], s[i + 3], s[i + 4], s[i + 5]];
    proof {
        assert(a@ =~= s@.subrange(i as int, i as int + 6));
    }
    Ok((a, i + 6))
}

/// Reads a 16-byte key.
fn take_key(s: &[u8], i: usize) -> (r: Result<([u8; 16], usize), MsgError>)
    ensures
        match dec_arr(s@, i as int, 16) {
            Some((a, j)) => r matches Ok(p) && p.0@ == a && p.1 == j,
            None => r == Err::<([u8; 16], usize), MsgError>(MsgError::FormatError),
        },
{
    if i > s.len() || s.len() - i < 16 {
        return Err(MsgError::FormatError);
    }
    let a = [
        s[i],
        s[i + 1],
        s[i + 2],
        s[i + 3],
        s[i + 4],
        s[i + 5],
        s[i + 6],
        s[i + 7],
        s[i + 8],
        s[i + 9],
        s[i + 10],
        s[i + 11],
        s[i + 12],
        s[i + 13],
        s[i + 14],
        s[i + 15],
    ];
    proof {
        assert(a@ =~= s@.subrange(i as int, i as int + 16));
    }
    Ok((a, i + 16))
}

/// Reads a length-prefixed payload of at most [`crate::MAX_DATA_LEN`]
/// bytes.
fn take_data(s: &[u8], i: usize) -> (r: Result<(crate::types::data::Data, usize), MsgError>)
    ensures
        match dec_data(s@, i as int) {
            Some((d, j)) => r matches Ok(p) && p.0@ == d && p.1 == j,
            None => r == Err::<(crate::types::data::Data, usize), MsgError>(MsgError::FormatError),
        },
{
    let (len, j) = take_u32(s, i)?;
    if len > 250 {
        return Err(MsgError::FormatError);
    }
    let n = len as usize;
    if j > s.len() || s.len() - j < n {
        return Err(MsgError::FormatError);
    }
    let mut v: Vec<u8> = Vec::new();
    let mut t: usize = 0;
    while t < n
        invariant
            t <= n,
            j + n <= s.len(),
            v@ == s@.subrange(j as int, j as int + t as int),
        decreases n - t,
    {
        v.push(s[j + t]);
        t += 1;
        proof {
            assert(v@ =~= s@.subrange(j as int, j as int + t as int));
        }
    }
    match crate::types::data::Data::from_vec(v) {
        Ok(d) => Ok((d, j + n)),
        Err(_) => Err(MsgError::FormatError),
    }
}

/// Reads an optional single byte.
fn take_opt_u8(s: &[u8], i: usize) -> (r: Result<(Option<u8>, usize), MsgError>)
    ensures
        match dec_opt_u8(s@, i as int) {
            Some((o, j)) => r matches Ok(p) && p.0 == o && p.1 == j,
            None => r == Err::<(Option<u8>, usize), MsgError>(MsgError::FormatError),
        },
{
    let (p, j) = take_byte(s, i)?;
    if p == 0 {
        Ok((None, j))
    } else if p == 1 {
        let (v, j2) = take_byte(s, j)?;
        Ok((Some(v), j2))
    } else {
        Err(MsgError::FormatError)
    }
}

/// Reads an optional `u16`.
fn take_opt_u16(s: &[u8], i: usize) -> (r: Result<(Option<u16>, usize), MsgError>)
    ensures
        match dec_opt_u16(s@, i as int) {
            Some((o, j)) => r matches Ok(p) && p.0 == o && p.1 == j,
            None => r == Err::<(Option<u16>, usize), MsgError>(MsgError::FormatError),
        },
{
    let (p, j) = take_byte(s, i)?;
    if p == 0 {
        Ok((None, j))
    } else if p == 1 {
        let (v, j2) = take_u16(s, j)?;
        Ok((Some(v), j2))
    } else {
        Err(MsgError::FormatError)
    }
}

/// Reads an optional `u32`.
fn take_opt_u32(s: &[u8], i: usize) -> (r: Result<(Option<u32>, usize), MsgError>)
    ensures
        match dec_opt_u32(s@, i as int) {
            Some((o, j)) => r matches Ok(p) && p.0 == o && p.1 == j,
            None => r == Err::<(Option<u32>, usize), MsgError>(MsgError::FormatError),
        },
{
    let (p, j) = take_byte(s, i)?;
    if p == 0 {
        Ok((None, j))
    } else if p == 1 {
        let (v, j2) = take_u32(s, j)?;
        Ok((Some(v), j2))
    } else {
        Err(MsgError::FormatError)
    }
}

/// Reads an optional 16-byte key.
fn take_opt_key(s: &[u8], i: usize) -> (r: Result<(Option<[u8; 16]>, usize), MsgError>)
    ensures
        match dec_opt_key(s@, i as int) {
            Some((o, j)) => r matches Ok(p) && opt_key_view(p.0) == o && p.1 == j,
            None => r == Err::<(Option<[u8; 16]>, usize), MsgError>(MsgError::FormatError),
        },
{
    let (p, j) = take_byte(s, i)?;
    if p == 0 {
        Ok((None, j))
    } else if p == 1 {
        let (k, j2) = take_key(s, j)?;
        Ok((Some(k), j2))
    } else {
        Err(MsgError::FormatError)
    }
}

/// Reads an optional rate.
fn take_opt_rate(s: &[u8], i: usize) -> (r: Result<(Option<WifiPhyRate>, usize), MsgError>)
    ensures
        match dec_opt_rate(s@, i as int) {
            Some((o, j)) => r matches Ok(p) && p.0 == o && p.1 == j,
            None => r == Err::<(Option<WifiPhyRate>, usize), MsgError>(MsgError::FormatError),
        },
{
    let (p, j) = take_byte(s, i)?;
    if p == 0 {
        Ok((None, j))
    } else if p == 1 {
        let (v, j2) = take_u32(s, j)?;
        match WifiPhyRate::from_index(v) {
            Some(rate) => Ok((Some(rate), j2)),
            None => Err(MsgError::FormatError),
        }
    } else {
        Err(MsgError::FormatError)
    }
}

/// Decodes an envelope from wire bytes. Fails with a format error exactly
/// when the bytes do not fit the schema; bytes past the message are
/// ignored, as the transport may pad a frame.
pub fn decode_msg(s: &[u8]) -> (r: Result<crate::types::msg::Msg, MsgError>)
    ensures
        match dec_msg(s@) {
            Some(v) => r matches Ok(m) && m@ == v,
            None => r == Err::<crate::types::msg::Msg, MsgError>(MsgError::FormatError),
        },
{
    let (tag, i) = take_byte(s, 0)?;
    match tag {
        0 => {
            let (id, i1) = take_u32(s, i)?;
            let (api_version, i2) = take_u32(s, i1)?;
            let (now_version, i3) = take_u32(s, i2)?;
            let (channel, i4) = take_byte(s, i3)?;
            let (address, _i5) = take_addr(s, i4)?;
            Ok(
                crate::types::msg::Msg::Init(
                    crate::types::init_config::InitConfig {
                        id,
                        api_version,
                        now_version,
                        channel,
                        address,
                    },
                ),
            )
        },
        1 => {
            let (id, i1) = take_u32(s, i)?;
            let (channel, i2) = take_opt_u8(s, i1)?;
            let (pmk, i3) = take_opt_key(s, i2)?;
            let (wake_window, i4) = take_opt_u16(s, i3)?;
            let (rate, _i5) = take_opt_rate(s, i4)?;
            Ok(
                crate::types::msg::Msg::HubConfig(
                    crate::types::hub_config::HubConfig { id, channel, pmk, wake_window, rate },
                ),
            )
        },
        2 => {
            let (id, i1) = take_u32(s, i)?;
            let (dst_addr, i2) = take_addr(s, i1)?;
            let (data, i3) = take_data(s, i2)?;
            let (defer, _i4) = take_bool(s, i3)?;
            Ok(
                crate::types::msg::Msg::Send(
                    crate::types::tx_data::TxData { id, dst_addr, data, defer },
                ),
            )
        },
        3 => {
            let (id, i1) = take_u32(s, i)?;
            let (src_addr, i2) = take_addr(s, i1)?;
            let (dst_addr, i3) = take_addr(s, i2)?;
            let (data, i4) = take_data(s, i3)?;
            let (rssi, _i5) = take_i32(s, i4)?;
            Ok(
                crate::types::msg::Msg::Recv(
                    crate::types::rx_data::RxData { id, src_addr, dst_addr, data, rssi },
                ),
            )
        },
        4 => {
            let (id, i1) = take_u32(s, i)?;
            let (data, i2) = take_data(s, i1)?;
            let (interval, _i3) = take_opt_u32(s, i2)?;
            Ok(
                crate::types::msg::Msg::Broadcast(
                    crate::types::broadcast::BroadcastData { id, data, interval },
                ),
            )
        },
        5 => {
            let (peer, _j) = take_peer_info(s, i)?;
            Ok(crate::types::msg::Msg::AddPeer(peer))
        },
        6 => {
            let (peer, _j) = take_peer_info(s, i)?;
            Ok(crate::types::msg::Msg::ModifyPeer(peer))
        },
        7 => {
            let (id, i1) = take_u32(s, i)?;
            let (address, _i2) = take_addr(s, i1)?;
            Ok(
                crate::types::msg::Msg::RemovePeer(
                    crate::types::peer::PeerAddress { id, address },
                ),
            )
        },
        8 => {
            let (id, i1) = take_u32(s, i)?;
            let (rx_id, i2) = take_u32(s, i1)?;
            let (status, _i3) = take_bool(s, i2)?;
            Ok(crate::types::msg::Msg::Ack(crate::types::ack::Ack { id, rx_id, status }))
        },
        _ => Err(MsgError::FormatError),
    }
}

/// Reads a peer entry payload.
fn take_peer_info(s: &[u8], i: usize) -> (r: Result<(crate::types::peer::PeerInfo, usize), MsgError>)
    ensures
        match dec_peer_info(s@, i as int) {
            Some((v, j)) => r matches Ok(p) && p.0@ == v && p.1 == j,
            None => r == Err::<(crate::types::peer::PeerInfo, usize), MsgError>(
                MsgError::FormatError,
            ),
        },
{
    let (id, i1) = take_u32(s, i)?;
    let (peer_address, i2) = take_addr(s, i1)?;
    let (lmk, i3) = take_opt_key(s, i2)?;
    let (channel, i4) = take_opt_u8(s, i3)?;
    let (encrypt, i5) = take_bool(s, i4)?;
    Ok((crate::types::peer::PeerInfo { id, peer_address, lmk, channel, encrypt }, i5))
}

} // verus!
