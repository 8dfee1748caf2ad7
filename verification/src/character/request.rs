//! Requests of the character protocol and how their bodies are read.

use vstd::prelude::*;
use vstd::slice::slice_subrange;
use vstd::string::*;
use crate::account::mmo_account::Sex;
use crate::character::attributes::{Appearance, Class, Stats};
use crate::character::name::{name_text, name_wire, CharacterName};
use crate::codec::{le16, le32, push_padded, push_u16, push_u32, push_zeros, zeros};
use crate::error::{PacketError, PacketErrorView};
use crate::text::wire_text;
use crate::utils::{long_of, parse_long, parse_word, word_of};

verus! {

/// The ticket that a client presents to a character server.
#[derive(Debug, Clone, Copy, PartialEq, Eq, Structural)]
pub struct AccountInfo {
    pub account_id: u32,
    pub authentication_code: u32,
    pub user_level: u32,
    pub sex: Sex,
}

/// What a client asks a new character to be.
#[derive(Debug)]
pub struct NewCharacter {
    pub name: CharacterName,
    pub slot: u8,
    pub stats: Stats,
    pub appearance: Appearance,
    pub class: Class,
    pub sex: Sex,
}

/// The mathematical value of a [`NewCharacter`].
pub struct NewCharacterView {
    pub name: Seq<char>,
    pub slot: u8,
    pub stats: Stats,
    pub appearance: Appearance,
    pub class: Class,
    pub sex: Sex,
}

impl View for NewCharacter {
    type V = NewCharacterView;

    open spec fn view(&self) -> NewCharacterView {
        NewCharacterView {
            name: self.name@,
            slot: self.slot,
            stats: self.stats,
            appearance: self.appearance,
            class: self.class,
            sex: self.sex,
        }
    }
}

/// The kinds of frame that a client may send to the character port.
#[derive(Debug, Copy, Clone, PartialEq, Eq, Structural)]
pub enum CharacterCommand {
    ConnectClient,
    ListCharacters,
    SelectCharacter,
    CreateCharacter,
    DeleteCharacter,
    RequestCharacterDeletion,
    AcceptCharacterDeletion,
    CancelCharacterDeletion2,
    RenameCharacter,
    RequestCaptcha,
    CheckCaptcha,
    MoveCharacterSlot,
    KeepAlive,
    CheckPincode,
    RequestPincode,
    ChangePincode,
    NewPincode,
}

/// What a client asks of the character server.
#[derive(Debug)]
pub enum Request {
    ConnectClient(AccountInfo),
    ListCharacters,
    SelectCharacter(u8),
    CreateCharacter(NewCharacter),
    DeleteCharacter,
    RequestCharacterDeletion,
    AcceptCharacterDeletion,
    CancelCharacterDeletion2,
    RenameCharacter,
    RequestCaptcha,
    CheckCaptcha,
    MoveCharacterSlot,
    KeepAlive,
    CheckPincode,
    RequestPincode,
    ChangePincode,
    NewPincode,
}

/// The mathematical value of a [`Request`].
pub enum RequestView {
    ConnectClient(AccountInfo),
    ListCharacters,
    SelectCharacter(u8),
    CreateCharacter(NewCharacterView),
    DeleteCharacter,
    RequestCharacterDeletion,
    AcceptCharacterDeletion,
    CancelCharacterDeletion2,
    RenameCharacter,
    RequestCaptcha,
    CheckCaptcha,
    MoveCharacterSlot,
    KeepAlive,
    CheckPincode,
    RequestPincode,
    ChangePincode,
    NewPincode,
}

impl View for Request {
    type V = RequestView;

    open spec fn view(&self) -> RequestView {
        match self {
            Request::ConnectClient(info) => RequestView::ConnectClient(*info),
            Request::SelectCharacter(slot) => RequestView::SelectCharacter(*slot),
            Request::CreateCharacter(new_character) => RequestView::CreateCharacter(new_character@),
            Request::ListCharacters => RequestView::ListCharacters,
            Request::DeleteCharacter => RequestView::DeleteCharacter,
            Request::RequestCharacterDeletion => RequestView::RequestCharacterDeletion,
            Request::AcceptCharacterDeletion => RequestView::AcceptCharacterDeletion,
            Request::CancelCharacterDeletion2 => RequestView::CancelCharacterDeletion2,
            Request::RenameCharacter => RequestView::RenameCharacter,
            Request::RequestCaptcha => RequestView::RequestCaptcha,
            Request::CheckCaptcha => RequestView::CheckCaptcha,
            Request::MoveCharacterSlot => RequestView::MoveCharacterSlot,
            Request::KeepAlive => RequestView::KeepAlive,
            Request::CheckPincode => RequestView::CheckPincode,
            Request::RequestPincode => RequestView::RequestPincode,
            Request::ChangePincode => RequestView::ChangePincode,
            Request::NewPincode => RequestView::NewPincode,
        }
    }
}

/// The view of a parse result.
pub open spec fn parsed(r: Result<(usize, Request), PacketError>) -> Result<
    (nat, RequestView),
    PacketErrorView,
> {
    match r {
        Ok((n, request)) => Ok((n as nat, request@)),
        Err(e) => Err(e@),
    }
}

/// The ticket in a `ConnectClient` body: account id, authentication code
/// and user level, two unused bytes, and the sex in byte 14.
pub open spec fn connect_of(body: Seq<u8>) -> Result<(nat, RequestView), PacketErrorView> {
    match Sex::of_wire(body[14]) {
        Some(sex) => Ok(
            (
                15,
                RequestView::ConnectClient(
                    AccountInfo {
                        account_id: long_of(body.subrange(0, 4)),
                        authentication_code: long_of(body.subrange(4, 8)),
                        user_level: long_of(body.subrange(8, 12)),
                        sex,
                    },
                ),
            ),
        ),
        None => Err(PacketErrorView::InvalidRequest("Invalid sex"@)),
    }
}

/// The new character in a `CreateCharacter` body: the name in 24 bytes, the
/// slot, hair colour, hair and class, two unused bytes, and the sex in byte
/// 33. The stats are the starting stats; of the looks only hair and hair
/// colour are set. The name may be empty: whether it may be used is decided
/// where the character is made.
pub open spec fn create_of(body: Seq<u8>) -> Result<(nat, RequestView), PacketErrorView> {
    match Class::of_int(word_of(body.subrange(29, 31))) {
        None => Err(PacketErrorView::InvalidRequest("Invalid class"@)),
        Some(class) => match Sex::of_wire(body[33]) {
            None => Err(PacketErrorView::InvalidRequest("Invalid sex"@)),
            Some(sex) => Ok(
                (
                    34,
                    RequestView::CreateCharacter(
                        NewCharacterView {
                            name: wire_text(name_text(body)),
                            slot: body[24],
                            stats: Stats::initial(),
                            appearance: Appearance {
                                hair: word_of(body.subrange(27, 29)),
                                hair_color: word_of(body.subrange(25, 27)),
                                clothes: 0,
                                clothes_color: 0,
                                body: 0,
                            },
                            class,
                            sex,
                        },
                    ),
                ),
            ),
        },
    }
}

impl CharacterCommand {
    /// The command that an opcode stands for, if any.
    pub open spec fn of_code(code: u16) -> Option<CharacterCommand> {
        match code {
            0x65 => Some(CharacterCommand::ConnectClient),
            0xa39 => Some(CharacterCommand::CreateCharacter),
            0x970 => Some(CharacterCommand::CreateCharacter),
            0x67 => Some(CharacterCommand::CreateCharacter),
            0x66 => Some(CharacterCommand::SelectCharacter),
            0x9a1 => Some(CharacterCommand::ListCharacters),
            0x68 => Some(CharacterCommand::DeleteCharacter),
            0x1fb => Some(CharacterCommand::DeleteCharacter),
            0x28d => Some(CharacterCommand::RenameCharacter),
            0x7e5 => Some(CharacterCommand::RequestCaptcha),
            0x7e7 => Some(CharacterCommand::CheckCaptcha),
            0x8d4 => Some(CharacterCommand::MoveCharacterSlot),
            0x187 => Some(CharacterCommand::KeepAlive),
            0x827 => Some(CharacterCommand::RequestCharacterDeletion),
            0x829 => Some(CharacterCommand::AcceptCharacterDeletion),
            0x82b => Some(CharacterCommand::CancelCharacterDeletion2),
            0x8b8 => Some(CharacterCommand::CheckPincode),
            0x8c5 => Some(CharacterCommand::RequestPincode),
            0x8be => Some(CharacterCommand::ChangePincode),
            0x8ba => Some(CharacterCommand::NewPincode),
            _ => None,
        }
    }

    /// Number of bytes that follow the opcode in a frame of this command.
    pub open spec fn body_len(self) -> nat {
        match self {
            CharacterCommand::ConnectClient => 15,
            CharacterCommand::CreateCharacter => 34,
            CharacterCommand::SelectCharacter => 1,
            CharacterCommand::KeepAlive => 4,
            _ => 0,
        }
    }

    /// The request that a complete body of this command stands for, or the
    /// reason why it stands for none.
    pub open spec fn request_of(self, body: Seq<u8>) -> Result<(nat, RequestView), PacketErrorView> {
        match self {
            CharacterCommand::ConnectClient => connect_of(body),
            CharacterCommand::CreateCharacter => create_of(body),
            CharacterCommand::SelectCharacter => Ok((1, RequestView::SelectCharacter(body[0]))),
            CharacterCommand::ListCharacters => Ok((0, RequestView::ListCharacters)),
            CharacterCommand::DeleteCharacter => Ok((0, RequestView::DeleteCharacter)),
            CharacterCommand::RequestCharacterDeletion => Ok((0, RequestView::RequestCharacterDeletion)),
            CharacterCommand::AcceptCharacterDeletion => Ok((0, RequestView::AcceptCharacterDeletion)),
            CharacterCommand::CancelCharacterDeletion2 => Ok((0, RequestView::CancelCharacterDeletion2)),
            CharacterCommand::RenameCharacter => Ok((0, RequestView::RenameCharacter)),
            CharacterCommand::RequestCaptcha => Ok((0, RequestView::RequestCaptcha)),
            CharacterCommand::CheckCaptcha => Ok((0, RequestView::CheckCaptcha)),
            CharacterCommand::MoveCharacterSlot => Ok((0, RequestView::MoveCharacterSlot)),
            CharacterCommand::KeepAlive => Ok((4, RequestView::KeepAlive)),
            CharacterCommand::CheckPincode => Ok((0, RequestView::CheckPincode)),
            CharacterCommand::RequestPincode => Ok((0, RequestView::RequestPincode)),
            CharacterCommand::ChangePincode => Ok((0, RequestView::ChangePincode)),
            CharacterCommand::NewPincode => Ok((0, RequestView::NewPincode)),
        }
    }

    /// What parsing the bytes after the opcode gives: the request and the
    /// number of bytes it took, how many bytes are still missing, or why
    /// the body is refused.
    pub open spec fn parse_spec(self, buf: Seq<u8>) -> Result<(nat, RequestView), PacketErrorView> {
        if buf.len() >= self.body_len() {
            self.request_of(buf.subrange(0, self.body_len() as int))
        } else {
            Err(PacketErrorView::PacketIncomplete((self.body_len() - buf.len()) as usize))
        }
    }

    /// Classifies an opcode.
    pub fn try_from(value: u16) -> (r: Result<CharacterCommand, PacketError>)
        ensures
            CharacterCommand::of_code(value) matches Some(command) ==> r == Ok::<
                CharacterCommand,
                PacketError,
            >(command),
            CharacterCommand::of_code(value) is None ==> r == Err::<CharacterCommand, PacketError>(
                PacketError::InvalidCommand(value),
            ),
    {
        match value {
            0x65 => Ok(CharacterCommand::ConnectClient),
            0xa39 => Ok(CharacterCommand::CreateCharacter),
            0x970 => Ok(CharacterCommand::CreateCharacter),
            0x67 => Ok(CharacterCommand::CreateCharacter),
            0x66 => Ok(CharacterCommand::SelectCharacter),
            0x9a1 => Ok(CharacterCommand::ListCharacters),
            0x68 => Ok(CharacterCommand::DeleteCharacter),
            0x1fb => Ok(CharacterCommand::DeleteCharacter),
            0x28d => Ok(CharacterCommand::RenameCharacter),
            0x7e5 => Ok(CharacterCommand::RequestCaptcha),
            0x7e7 => Ok(CharacterCommand::CheckCaptcha),
            0x8d4 => Ok(CharacterCommand::MoveCharacterSlot),
            0x187 => Ok(CharacterCommand::KeepAlive),
            0x827 => Ok(CharacterCommand::RequestCharacterDeletion),
            0x829 => Ok(CharacterCommand::AcceptCharacterDeletion),
            0x82b => Ok(CharacterCommand::CancelCharacterDeletion2),
            0x8b8 => Ok(CharacterCommand::CheckPincode),
            0x8c5 => Ok(CharacterCommand::RequestPincode),
            0x8be => Ok(CharacterCommand::ChangePincode),
            0x8ba => Ok(CharacterCommand::NewPincode),
            unknown => Err(PacketError::InvalidCommand(unknown)),
        }
    }

    /// Number of bytes that follow the opcode in a frame of this command.
    pub fn body_size(&self) -> (n: usize)
        ensures
            n == self.body_len(),
    {
        match self {
            CharacterCommand::ConnectClient => 15,
            CharacterCommand::CreateCharacter => 34,
            CharacterCommand::SelectCharacter => 1,
            CharacterCommand::KeepAlive => 4,
            _ => 0,
        }
    }

    /// Reads the body of a frame of this command from the bytes that follow
    /// the opcode. Bytes beyond the body are not looked at.
    pub fn parse(&self, buf: &[u8]) -> (r: Result<(usize, Request), PacketError>)
        ensures
            parsed(r) == self.parse_spec(buf@),
    {
        let need = self.body_size();
        if buf.len() < need {
            return Err(PacketError::PacketIncomplete(need - buf.len()));
        }
        let body = slice_subrange(buf, 0, need);
        match self {
            CharacterCommand::ConnectClient => {
                let sex = match Sex::try_from_u8(body[14]) {
                    Some(sex) => sex,
                    None => {
                        return Err(PacketError::InvalidRequest(String::from_str("Invalid sex")));
                    },
                };
                let account_info = AccountInfo {
                    account_id: parse_long(slice_subrange(body, 0, 4)),
                    authentication_code: parse_long(slice_subrange(body, 4, 8)),
                    user_level: parse_long(slice_subrange(body, 8, 12)),
                    sex,
                };
                Ok((15, Request::ConnectClient(account_info)))
            },
            CharacterCommand::CreateCharacter => {
                let name = match CharacterName::try_from(body) {
                    Ok(name) => name,
                    Err(err) => {
                        return Err(err);
                    },
                };
                let class = match Class::from_int(parse_word(slice_subrange(body, 29, 31))) {
                    Some(class) => class,
                    None => {
                        return Err(PacketError::InvalidRequest(String::from_str("Invalid class")));
                    },
                };
                let sex = match Sex::try_from_u8(body[33]) {
                    Some(sex) => sex,
                    None => {
                        return Err(PacketError::InvalidRequest(String::from_str("Invalid sex")));
                    },
                };
                let new_character = NewCharacter {
                    name,
                    slot: body[24],
                    stats: Stats::default(),
                    appearance: Appearance {
                        hair: parse_word(slice_subrange(body, 27, 29)),
                        hair_color: parse_word(slice_subrange(body, 25, 27)),
                        clothes: 0,
                        clothes_color: 0,
                        body: 0,
                    },
                    class,
                    sex,
                };
                Ok((34, Request::CreateCharacter(new_character)))
            },
            CharacterCommand::SelectCharacter => Ok((1, Request::SelectCharacter(body[0]))),
            CharacterCommand::ListCharacters => Ok((0, Request::ListCharacters)),
            CharacterCommand::DeleteCharacter => Ok((0, Request::DeleteCharacter)),
            CharacterCommand::RequestCharacterDeletion => Ok((0, Request::RequestCharacterDeletion)),
            CharacterCommand::AcceptCharacterDeletion => Ok((0, Request::AcceptCharacterDeletion)),
            CharacterCommand::CancelCharacterDeletion2 => Ok((0, Request::CancelCharacterDeletion2)),
            CharacterCommand::RenameCharacter => Ok((0, Request::RenameCharacter)),
            CharacterCommand::RequestCaptcha => Ok((0, Request::RequestCaptcha)),
            CharacterCommand::CheckCaptcha => Ok((0, Request::CheckCaptcha)),
            CharacterCommand::MoveCharacterSlot => Ok((0, Request::MoveCharacterSlot)),
            CharacterCommand::KeepAlive => Ok((4, Request::KeepAlive)),
            CharacterCommand::CheckPincode => Ok((0, Request::CheckPincode)),
            CharacterCommand::RequestPincode => Ok((0, Request::RequestPincode)),
            CharacterCommand::ChangePincode => Ok((0, Request::ChangePincode)),
            CharacterCommand::NewPincode => Ok((0, Request::NewPincode)),
        }
    }
}

/// The body that stands for a request: unused bytes are zero.
pub open spec fn request_body(request: RequestView) -> Seq<u8> {
    match request {
        RequestView::ConnectClient(info) => le32(info.account_id) + le32(info.authentication_code)
            + le32(info.user_level) + zeros(2) + seq![info.sex.wire_value()],
        RequestView::SelectCharacter(slot) => seq![slot],
        RequestView::CreateCharacter(new_character) => name_wire(new_character.name) + seq![
            new_character.slot,
        ] + le16(new_character.appearance.hair_color) + le16(new_character.appearance.hair) + le16(
            new_character.class.value(),
        ) + zeros(2) + seq![new_character.sex.wire_value()],
        RequestView::KeepAlive => zeros(4),
        _ => Seq::<u8>::empty(),
    }
}

/// The frame that stands for a request under the opcode `code`.
pub open spec fn request_frame(code: u16, request: RequestView) -> Seq<u8> {
    le16(code) + request_body(request)
}

/// The frame that stands for `request` under the opcode `code`: what a
/// client sends. Unused bytes are zero.
pub fn encode_request(code: u16, request: &Request) -> (frame: Vec<u8>)
    ensures
        frame@ == request_frame(code, request@),
{
    let mut frame: Vec<u8> = Vec::new();
    push_u16(&mut frame, code);
    let ghost head = frame@;
    assert(head =~= le16(code));
    match request {
        Request::ConnectClient(info) => {
            push_u32(&mut frame, info.account_id);
            push_u32(&mut frame, info.authentication_code);
            push_u32(&mut frame, info.user_level);
            push_zeros(&mut frame, 2);
            frame.push(info.sex.into_u8());
            assert(frame@ =~= head + request_body(request@));
        },
        Request::SelectCharacter(slot) => {
            frame.push(*slot);
            assert(frame@ =~= head + request_body(request@));
        },
        Request::CreateCharacter(new_character) => {
            push_padded(&mut frame, new_character.name.as_bytes(), 24);
            frame.push(new_character.slot);
            push_u16(&mut frame, new_character.appearance.hair_color);
            push_u16(&mut frame, new_character.appearance.hair);
            push_u16(&mut frame, new_character.class.int_value());
            push_zeros(&mut frame, 2);
            frame.push(new_character.sex.into_u8());
            assert(frame@ =~= head + request_body(request@));
        },
        Request::KeepAlive => {
            push_zeros(&mut frame, 4);
        },
        _ => {
            assert(frame@ =~= head + request_body(request@));
        },
    }
    frame
}

} // verus!
