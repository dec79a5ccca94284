//! Client library for a Nanoleaf Aurora smart-lighting device.
//!
//! The device exposes a local REST API. This crate holds the verified core of
//! a control client for it: building the HTTP requests each operation sends,
//! and interpreting the status and body the device answers with. The network
//! itself (HTTP transport, service discovery) is driven by a thin unverified
//! shell around this library.
#![allow(non_snake_case)]

use vstd::prelude::*;

pub mod client;
pub mod config;
pub mod discovery;
pub mod error;
pub mod json;
pub mod nanoleaf_json_messages;
pub mod strutil;

pub use client::Aurora;

verus! {

/// An IPv4 address of a device on the local network, as four octets,
/// most significant first.
#[derive(Clone, Copy, PartialEq, Eq, Structural, Debug)]
pub struct Ipv4Address {
    pub o0: u8,
    pub o1: u8,
    pub o2: u8,
    pub o3: u8,
}

} // verus!
