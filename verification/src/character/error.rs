//! Errors of the character protocol's framing.

use vstd::prelude::*;

verus! {

/// Why bytes are no frame of the character protocol.
#[derive(Debug, Clone, Copy, PartialEq, Eq, Structural)]
pub enum Error {
    InvalidCommand(u16),
    PacketIncomplete(usize),
}

} // verus!
