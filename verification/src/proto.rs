//! The wire formats: UDP control and status packets, and TCP tags.

pub mod tcp;
pub mod udp;

use vstd::prelude::*;

verus! {

/// Why received bytes could not be decoded.
#[derive(Copy, Clone, Debug, PartialEq, Eq, Structural)]
pub enum DecodeError {
    /// A status packet ends before its fixed part does.
    TruncatedHeader,
    /// A status packet ends inside the payload of a known tag.
    TruncatedTag,
    /// A TCP frame announces a length of zero, so it has no id.
    EmptyFrame,
}

} // verus!
