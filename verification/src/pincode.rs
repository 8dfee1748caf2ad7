//! The state of the client's pincode dialog.

use vstd::prelude::*;
use crate::account::db::AccountId;
use crate::codec::{le16, le32, EncodeStruct, RagnarokCodec};

verus! {

/// What the client's pincode dialog is to show.
#[derive(Debug, Clone, Copy, PartialEq, Eq, Structural)]
pub enum PincodeStatus {
    Correct,
    AskForPin,
    PinMustBeChanged,
    NeedNewPin,
    CreateNewPin,
    ClientWarning,
    UnableToUseKSSNNumber,
    ShowButton,
    Incorrect,
}

impl PincodeStatus {
    /// The number that stands for this value on the wire.
    pub open spec fn value(self) -> u16 {
        match self {
            PincodeStatus::Correct => 0,
            PincodeStatus::AskForPin => 1,
            PincodeStatus::PinMustBeChanged => 2,
            PincodeStatus::NeedNewPin => 3,
            PincodeStatus::CreateNewPin => 4,
            PincodeStatus::ClientWarning => 5,
            PincodeStatus::UnableToUseKSSNNumber => 6,
            PincodeStatus::ShowButton => 7,
            PincodeStatus::Incorrect => 8,
        }
    }

    /// The value that a number stands for, if any.
    pub open spec fn of_int(n: u16) -> Option<PincodeStatus> {
        match n {
            0 => Some(PincodeStatus::Correct),
            1 => Some(PincodeStatus::AskForPin),
            2 => Some(PincodeStatus::PinMustBeChanged),
            3 => Some(PincodeStatus::NeedNewPin),
            4 => Some(PincodeStatus::CreateNewPin),
            5 => Some(PincodeStatus::ClientWarning),
            6 => Some(PincodeStatus::UnableToUseKSSNNumber),
            7 => Some(PincodeStatus::ShowButton),
            8 => Some(PincodeStatus::Incorrect),
            _ => None,
        }
    }

    /// The number that stands for this value on the wire.
    pub fn int_value(self) -> (n: u16)
        ensures
            n == self.value(),
    {
        match self {
            PincodeStatus::Correct => 0,
            PincodeStatus::AskForPin => 1,
            PincodeStatus::PinMustBeChanged => 2,
            PincodeStatus::NeedNewPin => 3,
            PincodeStatus::CreateNewPin => 4,
            PincodeStatus::ClientWarning => 5,
            PincodeStatus::UnableToUseKSSNNumber => 6,
            PincodeStatus::ShowButton => 7,
            PincodeStatus::Incorrect => 8,
        }
    }

    /// The value that a number stands for, if any.
    pub fn from_int(n: u16) -> (r: Option<PincodeStatus>)
        ensures
            r == PincodeStatus::of_int(n),
    {
        match n {
            0 => Some(PincodeStatus::Correct),
            1 => Some(PincodeStatus::AskForPin),
            2 => Some(PincodeStatus::PinMustBeChanged),
            3 => Some(PincodeStatus::NeedNewPin),
            4 => Some(PincodeStatus::CreateNewPin),
            5 => Some(PincodeStatus::ClientWarning),
            6 => Some(PincodeStatus::UnableToUseKSSNNumber),
            7 => Some(PincodeStatus::ShowButton),
            8 => Some(PincodeStatus::Incorrect),
            _ => None,
        }
    }
}

/// What the client is told about the pincode of an account.
#[derive(Clone, Copy, Debug, PartialEq, Eq, Structural)]
pub struct PincodeInfo {
    pub status: PincodeStatus,
    pub account_id: AccountId,
    /// The seed that the client scrambles its pincode with.
    pub seed: u32,
}

impl EncodeStruct for PincodeInfo {
    open spec fn frame(&self) -> Seq<u8> {
        le32(self.seed) + le32(self.account_id) + le16(self.status.value())
    }

    fn encode<C: RagnarokCodec>(&self, codec: &mut C) {
        assert(le32(self.seed).len() == 4 && le32(self.account_id).len() == 4 && le16(
            self.status.value(),
        ).len() == 2);
        codec.encode(&self.seed);
        codec.encode(&self.account_id);
        codec.encode(&self.status.int_value());
    }
}

} // verus!
