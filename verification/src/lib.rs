//! Client-side protocol core for a CAN-bus bridge device.
//!
//! The bridge relays CAN traffic and configuration over a persistent
//! bidirectional transport using a compact binary message schema. This
//! crate holds the verified session layer: the message data model, the
//! binary envelope codec, the startup handshake sequence, the payload
//! dispatcher with its protocol-version gate, and the liveness and
//! connection state machines. Transport I/O itself lives outside the
//! library; callers hand frames in and carry actions out as plain values.

pub mod codec;
pub mod dispatch;
pub mod factory;
pub mod handshake;
pub mod msg;
pub mod session;

use vstd::prelude::*;

verus! {

/// Wire value of the protocol-version-request sentinel.
pub const PROTOCOL_VERSION_REQUEST: i32 = 0;

/// Wire value of protocol version 1, the single version this client speaks.
pub const PROTOCOL_V1: i32 = 1;

} // verus!
