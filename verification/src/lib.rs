//! Session-linkage and interaction-routing engine for a RORI endpoint.
//!
//! The crate owns the bound identity record, drives the register/link
//! handshake with the remote coordination service, classifies inbound and
//! outbound interactions, and buffers pending utterances for a speech sink.
//! Transport (daemon RPC, HTTP lookups, subprocesses) lives outside.

pub mod account;
pub mod config;
pub mod endpoint;
pub mod interaction;
pub mod json;
pub mod lookup;
pub mod session;
pub mod sharedprop;
