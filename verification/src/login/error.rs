//! Errors of the login protocol's decoder.

use vstd::prelude::*;

verus! {

/// Why bytes are no request of the login protocol.
#[derive(Debug, Clone, Copy, PartialEq, Eq, Structural)]
pub enum Error {
    /// The opcode is not one of the protocol's.
    InvalidCommand(u16),
    InvalidPacketSize(usize),
    /// More bytes are needed; the payload is how many.
    PacketIncomplete(usize),
}

} // verus!
