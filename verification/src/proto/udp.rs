//! The UDP side of the protocol.

pub mod inbound;
pub mod outbound;
