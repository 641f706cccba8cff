//! Verified core of a client for a proprietary home-automation hub protocol:
//! wire-frame encoding, device-model translation, response classification,
//! and the decision logic of the keepalive watchdog and the AC actuation
//! sequence. Socket I/O and the HTTP surface live outside this library.

pub mod auth;
pub mod climate;
pub mod codec;
pub mod config;
pub mod engine;
pub mod errors;
pub mod models;
pub mod wire;

pub use auth::Authorized;
pub use errors::ClientError;
pub use models::DeviceType;
