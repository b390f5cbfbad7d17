//! Wire protocol between a radio-attached embedded hub and a host-side
//! server: a closed set of tagged message variants with bounded payloads,
//! a deterministic binary codec for them, a MAC-address text codec, and a
//! bounded byte-buffer preview formatter.
use vstd::prelude::*;

pub mod codec;
pub mod format_mac;
pub mod hbuf;
pub mod monitor;
pub mod text;
pub mod types;
pub mod view;

pub use types::Ack;
pub use types::BroadcastData;
pub use types::Data;
pub use types::HubConfig;
pub use types::InitConfig;
pub use monitor::Monitor;
pub use types::Msg;
pub use types::MsgError;
pub use types::ParseWifiPhyRateError;
pub use types::PeerAddress;
pub use types::PeerInfo;
pub use types::RxData;
pub use types::TxData;
pub use types::WifiPhyRate;

verus! {

/// Hard capacity bound on the `data` payload of a message, in bytes.
pub const MAX_DATA_LEN: usize = 250;

/// Conventional size of a caller-provided encoding buffer, in bytes.
pub const MAX_MSG_LENGTH: usize = 256;

/// Informational protocol version, carried out-of-band by callers.
pub const VERSION: u32 = 0;

} // verus!
