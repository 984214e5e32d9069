//! Verified core of a Bluetooth Low Energy client/peripheral bridge.
//!
//! The modules here hold the decisions and data transformations of the bridge:
//! decoding characteristic values, the UUID catalogue, the request book-keeping
//! of the peripheral (server) mode, the caches of the central mode, the state
//! machines that drive connection, discovery and subscription, and the text
//! reports about an adapter. Everything that touches the radio, the Erlang VM
//! or the process environment stays outside this crate.

pub mod text;
pub mod utils;
pub mod peripheral_types;
pub mod uuids;
pub mod peripheral_manager_state;
pub mod peripheral_manager;
pub mod central_manager_state;
pub mod central_manager_utils;
pub mod peripheral;
pub mod central_manager;
pub mod central_manager_finder;
pub mod central_manager_state_utils;
pub mod gatt_peripheral;
pub mod logging;
pub mod examples;
