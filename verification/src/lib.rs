//! Protocol engine for LIFX smart-light control over the local network.
//!
//! The crate builds the fixed 36-byte packet header, encodes the
//! operation-specific payloads, decodes discovery responses, and tracks the
//! per-session sequence counter. The surrounding application owns the UDP
//! socket and hands complete packets to it.

pub mod commands;
pub mod lan;
pub mod lan_service;
pub mod wire;
