//! The message variant record types and the envelope that unites them.
pub mod ack;
pub mod broadcast;
pub mod data;
pub mod hub_config;
pub mod init_config;
pub mod msg;
pub mod peer;
pub mod rate;
pub mod rx_data;
pub mod tx_data;

pub use ack::Ack;
pub use broadcast::BroadcastData;
pub use data::Data;
pub use hub_config::HubConfig;
pub use init_config::InitConfig;
pub use msg::Msg;
pub use msg::MsgError;
pub use peer::PeerAddress;
pub use peer::PeerInfo;
pub use rate::ParseWifiPhyRateError;
pub use rate::WifiPhyRate;
pub use rx_data::RxData;
pub use tx_data::TxData;
