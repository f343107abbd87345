//! Core of a federated e-cash mint's client-facing request plane and the
//! companion Lightning gateway: transaction admission, status and epoch
//! queries, peer-liveness scoring, config-download rate limiting, client
//! backups, an expiring single-flight cache, and the gateway's payment
//! state machines.

pub mod alist;
pub mod balist;
pub mod bytes;
pub mod cache;
pub mod consensus_api;
pub mod crypto;
pub mod db;
pub mod endpoints;
pub mod errors;
pub mod gateway;
pub mod hexstr;
pub mod modules;
pub mod status;
pub mod transaction;
