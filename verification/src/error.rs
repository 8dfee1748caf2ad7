//! Errors of the character protocol's decoder.

use vstd::prelude::*;

verus! {

/// Why bytes are no request of the character protocol.
#[derive(Debug)]
pub enum PacketError {
    /// The opcode is not one of the protocol's.
    InvalidCommand(u16),
    /// More bytes are needed; the payload is how many.
    PacketIncomplete(usize),
    /// The frame is complete but a field holds a value that is not allowed.
    InvalidRequest(String),
}

/// The mathematical value of a [`PacketError`].
pub enum PacketErrorView {
    InvalidCommand(u16),
    PacketIncomplete(usize),
    InvalidRequest(Seq<char>),
}

impl View for PacketError {
    type V = PacketErrorView;

    open spec fn view(&self) -> PacketErrorView {
        match self {
            PacketError::InvalidCommand(code) => PacketErrorView::InvalidCommand(*code),
            PacketError::PacketIncomplete(missing) => PacketErrorView::PacketIncomplete(*missing),
            PacketError::InvalidRequest(reason) => PacketErrorView::InvalidRequest(reason@),
        }
    }
}

} // verus!
