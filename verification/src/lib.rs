//! The decision logic of a Matter stack that runs on ESP-IDF.

pub mod ble;
pub mod bounded;
pub mod bytes;
pub mod error;
pub mod multicast;
pub mod netif;
pub mod networks;
pub mod nvs;
pub mod persist;
pub mod thread;
pub mod udp;
pub mod wifi;
pub mod wireless;
