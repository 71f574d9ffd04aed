//! A small library for talking to NIIMBOT label printers.
//!
//! - [`protocol`]: the wire packet format, request/response command IDs, a
//!   stream decoder for reassembling packets from raw bytes, and the
//!   decoding of connect and heartbeat replies.
//! - [`serial_client`]: what the serial transport decides without touching
//!   the port.
//! - [`error`]: how operating-system errors of the serial link are told
//!   apart.
//!
//! This crate only models the small slice of the NIIMBOT protocol needed
//! for a connect handshake and periodic heartbeats; it does not implement
//! label rendering or printing.
pub mod error;
pub mod protocol;
pub mod serial_client;
