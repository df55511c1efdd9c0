//! Verified decisions of a QUIC file-transfer sample: chunked sending and
//! receiving, the server's accept loop, a peer-to-peer controller, the
//! commands of its shell, and the TLS and transport configuration of the
//! QUIC endpoints.
use vstd::prelude::*;

pub mod command;
pub mod controller;
pub mod endpoint_config;
pub mod quinn_config;
pub mod server;
pub mod startup;
pub mod transfer;

verus! {

/// Largest payload handed to a single stream write or read.
pub const MTU_SIZE: usize = 1500;

} // verus!
