//! Firmware distribution and per-device VPN configuration issuance.
//!
//! The crate holds the decisions of an over-the-air update service: which
//! firmware object in a bucket listing is the latest one, what each HTTP
//! endpoint answers for every outcome of the object store behind it, which
//! requests a protected endpoint lets through, and how a client's VPN record is
//! looked up and encoded. Network and storage I/O are left to the caller,
//! who hands in what the store returned and sends out what is returned here.

pub mod access;
pub mod encoding;
pub mod gateway;
pub mod http;
pub mod order;
pub mod pattern;
pub mod registry;
pub mod resolver;
pub mod service;
pub mod store;
pub mod tls;
