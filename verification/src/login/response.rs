//! Responses of the login protocol and their wire form.

use vstd::prelude::*;
use vstd::utf8::encode_utf8;
use crate::account::mmo_account::Sex;
use crate::character::server_list::{server_list_items, ServerList, MAX_SERVERS};
use crate::character::ServerInfo;
use crate::clock::Timestamp;
use crate::codec::{be32, le16, le32, padded, serialized, zeros, ClientTcpCodec};

verus! {

/// Why a login was refused.
#[derive(Debug)]
pub enum LoginFailed {
    UnregisteredId(String),
    IncorrectPassword,
    IdIsExpired,
    RejectedFromServer,
    AccountPermanentlySuspended,
    GameExeNotUpToDate,
    BannedUntil(Timestamp),
    ServerOverpopulated,
    MaxCompanyCapacityReached,
    BannedByDBA,
    EmailNotConfirmed,
    BannedByGM,
    TemporaryBanForDBWork,
    SelfLock,
    GroupNotPermittedV1(usize),
    GroupNotPermittedV2(usize),
    IdErased,
    LoginInfoRelocated,
    LockedForHackingInvestigation,
    LockedForBugInvestigation,
    DeleteInProgressV1,
    DeleteInProgressV2,
}

impl LoginFailed {
    /// The code that the client shows a message for.
    pub open spec fn code(&self) -> u32 {
        match self {
            LoginFailed::UnregisteredId(_) => 0,
            LoginFailed::IncorrectPassword => 1,
            LoginFailed::IdIsExpired => 2,
            LoginFailed::RejectedFromServer => 3,
            LoginFailed::AccountPermanentlySuspended => 4,
            LoginFailed::GameExeNotUpToDate => 5,
            LoginFailed::BannedUntil(_) => 6,
            LoginFailed::ServerOverpopulated => 7,
            LoginFailed::MaxCompanyCapacityReached => 8,
            LoginFailed::BannedByDBA => 9,
            LoginFailed::EmailNotConfirmed => 10,
            LoginFailed::BannedByGM => 11,
            LoginFailed::TemporaryBanForDBWork => 12,
            LoginFailed::SelfLock => 13,
            LoginFailed::GroupNotPermittedV1(_) => 14,
            LoginFailed::GroupNotPermittedV2(_) => 15,
            LoginFailed::IdErased => 99,
            LoginFailed::LoginInfoRelocated => 100,
            LoginFailed::LockedForHackingInvestigation => 101,
            LoginFailed::LockedForBugInvestigation => 102,
            LoginFailed::DeleteInProgressV1 => 103,
            LoginFailed::DeleteInProgressV2 => 104,
        }
    }

    /// The code that stands for this reason on the wire.
    pub fn error_code(&self) -> (code: u32)
        ensures
            code == self.code(),
            code <= 15 || 99 <= code <= 104,
    {
        match self {
            LoginFailed::UnregisteredId(_) => 0,
            LoginFailed::IncorrectPassword => 1,
            LoginFailed::IdIsExpired => 2,
            LoginFailed::RejectedFromServer => 3,
            LoginFailed::AccountPermanentlySuspended => 4,
            LoginFailed::GameExeNotUpToDate => 5,
            LoginFailed::BannedUntil(_) => 6,
            LoginFailed::ServerOverpopulated => 7,
            LoginFailed::MaxCompanyCapacityReached => 8,
            LoginFailed::BannedByDBA => 9,
            LoginFailed::EmailNotConfirmed => 10,
            LoginFailed::BannedByGM => 11,
            LoginFailed::TemporaryBanForDBWork => 12,
            LoginFailed::SelfLock => 13,
            LoginFailed::GroupNotPermittedV1(_) => 14,
            LoginFailed::GroupNotPermittedV2(_) => 15,
            LoginFailed::IdErased => 99,
            LoginFailed::LoginInfoRelocated => 100,
            LoginFailed::LockedForHackingInvestigation => 101,
            LoginFailed::LockedForBugInvestigation => 102,
            LoginFailed::DeleteInProgressV1 => 103,
            LoginFailed::DeleteInProgressV2 => 104,
        }
    }
}

/// Why a login was cut short.
#[derive(Debug, Clone, Copy, PartialEq, Eq, Structural)]
pub enum LoginAborted {
    ServerClosed,
    AlreadyLoggedIn,
    AlreadyOnline,
}

impl LoginAborted {
    pub open spec fn code(&self) -> u8 {
        match self {
            LoginAborted::ServerClosed => 1,
            LoginAborted::AlreadyLoggedIn => 2,
            LoginAborted::AlreadyOnline => 8,
        }
    }

    /// The code that stands for this reason on the wire.
    pub fn error_code(&self) -> (code: u8)
        ensures
            code == self.code(),
    {
        match self {
            LoginAborted::ServerClosed => 1,
            LoginAborted::AlreadyLoggedIn => 2,
            LoginAborted::AlreadyOnline => 8,
        }
    }
}

/// What a client is told after a successful login: its ticket for the
/// character servers and the list of those servers.
pub struct CharacterSelectionInfo {
    pub account_id: u32,
    pub authentication_code: u32,
    pub user_level: u32,
    pub sex: Sex,
    pub web_auth_token: [u8; 16],
    pub char_servers: ServerList,
}

/// What the login server tells a client.
pub enum Response {
    LoginSuccessV1(CharacterSelectionInfo),
    LoginSuccessV3(CharacterSelectionInfo),
    LoginFailed(LoginFailed),
    LoginAborted(LoginAborted),
}

/// Width of the field that holds the end of a ban.
pub const BAN_TEXT_WIDTH: usize = 20;

/// Size of one character-server record.
pub const SERVER_RECORD_SIZE: usize = 160;

/// Size of what precedes the server records, the opcode not counted.
pub const SUCCESS_HEADER_SIZE: usize = 62;

/// The text `YYYY-MM-DD HH:MM` of the time that lies `seconds` after the
/// epoch, in UTC, as chrono writes it, or `None` for a time that chrono
/// cannot represent.
pub uninterp spec fn utc_minute_text(seconds: i64) -> Option<Seq<u8>>;

/// The bytes of an optional byte string.
pub open spec fn text_view(text: Option<Vec<u8>>) -> Option<Seq<u8>> {
    match text {
        Some(bytes) => Some(bytes@),
        None => None,
    }
}

/// `chrono::DateTime::<Utc>::from_timestamp` followed by
/// `DateTime::format` with the pattern `%Y-%m-%d %H:%M`. The text depends on
/// `seconds` alone; `None` is chrono's answer for a time outside its range.
#[verifier::external_body]
fn format_utc_minute(seconds: i64) -> (text: Option<Vec<u8>>)
    ensures
        text_view(text) == utc_minute_text(seconds),
{
    chrono::DateTime::<chrono::Utc>::from_timestamp(seconds, 0).map(
        |moment| moment.format("%Y-%m-%d %H:%M").to_string().into_bytes(),
    )
}

/// The text that is sent for the end of a ban: none for a time beyond the
/// range of a signed 64-bit count of seconds.
pub open spec fn ban_text(until: Timestamp) -> Option<Seq<u8>> {
    if until <= i64::MAX {
        utc_minute_text(until as i64)
    } else {
        None
    }
}

/// The text that is sent for the end of a ban.
pub fn ban_text_of(until: Timestamp) -> (text: Option<Vec<u8>>)
    ensures
        text_view(text) == ban_text(until),
{
    if until <= 0x7fff_ffff_ffff_ffff {
        format_utc_minute(until as i64)
    } else {
        None
    }
}

/// Body of a refusal: the error code, then 20 bytes that hold the end of a
/// ban, cut or zero-padded, or zeros where there is none.
pub open spec fn failure_body(code: u32, ban_text: Option<Seq<u8>>) -> Seq<u8> {
    le32(code) + match ban_text {
        Some(text) => padded(text, BAN_TEXT_WIDTH as nat),
        None => zeros(BAN_TEXT_WIDTH as nat),
    }
}

/// The 160 bytes that describe one character server.
pub open spec fn server_record(info: ServerInfo) -> Seq<u8> {
    be32(info.ip_addr) + le16(info.port) + padded(encode_utf8(info.name@), 20) + le16(
        info.server_activity.wire_value(),
    ) + le16(info.server_type.wire_value()) + zeros(130)
}

/// The records of `servers`, one after the other.
pub open spec fn server_records(servers: Seq<ServerInfo>) -> Seq<u8>
    decreases servers.len(),
{
    if servers.len() == 0 {
        Seq::<u8>::empty()
    } else {
        server_records(servers.drop_last()) + server_record(servers.last())
    }
}

/// What precedes the server records of a successful login: the size of the
/// whole frame, the ticket, 30 unused bytes, the sex, the web token and one
/// unused byte.
pub open spec fn success_header(info: CharacterSelectionInfo) -> Seq<u8> {
    le16((64 + 160 * server_list_items(info.char_servers).len()) as u16) + le32(
        info.authentication_code,
    ) + le32(info.account_id) + le32(info.user_level) + zeros(30) + seq![info.sex.wire_value()]
        + info.web_auth_token@ + zeros(1)
}

/// Body of a successful login.
pub open spec fn success_body(info: CharacterSelectionInfo) -> Seq<u8> {
    success_header(info) + server_records(server_list_items(info.char_servers))
}

/// A server record is 160 bytes long.
pub proof fn lemma_server_record_len(info: ServerInfo)
    ensures
        server_record(info).len() == SERVER_RECORD_SIZE,
{
}

/// `n` server records are `160 * n` bytes long.
pub proof fn lemma_server_records_len(servers: Seq<ServerInfo>)
    ensures
        server_records(servers).len() == 160 * servers.len(),
    decreases servers.len(),
{
    if servers.len() > 0 {
        lemma_server_records_len(servers.drop_last());
        lemma_server_record_len(servers.last());
    }
}

/// The body of a successful login that lists `n` servers is `62 + 160 * n`
/// bytes long, so that the frame, opcode included, is `64 + 160 * n` bytes:
/// the number that its size field holds.
pub proof fn lemma_success_body_len(info: CharacterSelectionInfo)
    requires
        server_list_items(info.char_servers).len() <= MAX_SERVERS,
    ensures
        success_body(info).len() == 62 + 160 * server_list_items(info.char_servers).len(),
        success_body(info).subrange(0, 2) == le16((success_body(info).len() + 2) as u16),
{
    lemma_server_records_len(server_list_items(info.char_servers));
    assert(info.web_auth_token@.len() == 16);
    assert(success_header(info).len() == 62);
    assert(success_body(info).subrange(0, 2) =~= le16((success_body(info).len() + 2) as u16));
}

impl Response {
    /// The opcode of this response.
    pub open spec fn code(&self) -> u16 {
        match self {
            Response::LoginSuccessV1(_) => 0x69,
            Response::LoginSuccessV3(_) => 0xac4,
            Response::LoginFailed(_) => 0x83e,
            Response::LoginAborted(_) => 0x81,
        }
    }

    /// The bytes that follow the opcode. The layout of `LoginSuccessV1` is
    /// not defined: this function is not meant for it.
    pub open spec fn body(&self) -> Seq<u8> {
        match self {
            Response::LoginSuccessV1(_) => Seq::<u8>::empty(),
            Response::LoginSuccessV3(info) => success_body(*info),
            Response::LoginFailed(failure) => match failure {
                LoginFailed::BannedUntil(until) => failure_body(6, ban_text(*until)),
                _ => failure_body(failure.code(), None),
            },
            Response::LoginAborted(aborted) => seq![aborted.code()],
        }
    }

    /// The opcode of this response.
    pub fn command_code(&self) -> (code: u16)
        ensures
            code == self.code(),
    {
        match self {
            Response::LoginSuccessV1(_) => 0x69,
            Response::LoginSuccessV3(_) => 0xac4,
            Response::LoginFailed(_) => 0x83e,
            Response::LoginAborted(_) => 0x81,
        }
    }

    /// Writes the body of this response to the start of `buf`, or reports
    /// the size it needs and writes nothing.
    pub fn serialize(&self, buf: &mut [u8]) -> (r: Result<usize, usize>)
        requires
            !(self is LoginSuccessV1),
        ensures
            serialized(old(buf)@, final(buf)@, self.body(), r),
    {
        match self {
            Response::LoginSuccessV1(_) => Err(0),
            Response::LoginSuccessV3(info) => serialize_success(info, buf),
            Response::LoginFailed(failure) => {
                let code = failure.error_code();
                match failure {
                    LoginFailed::BannedUntil(until) => {
                        let text = ban_text_of(*until);
                        serialize_failure(code, &text, buf)
                    },
                    _ => serialize_failure(code, &None, buf),
                }
            },
            Response::LoginAborted(aborted) => {
                if buf.len() < 1 {
                    return Err(1);
                }
                let mut codec = ClientTcpCodec::new(buf);
                codec.encode_u8(aborted.error_code());
                assert(codec.written() =~= seq![aborted.code()]);
                Ok(1)
            },
        }
    }
}

/// Writes the body of a refusal with error code `code`. `ban_text` is the
/// text of the end of the ban, where there is one.
pub fn serialize_failure(code: u32, ban_text: &Option<Vec<u8>>, buf: &mut [u8]) -> (r: Result<
    usize,
    usize,
>)
    ensures
        serialized(old(buf)@, final(buf)@, failure_body(code, text_view(*ban_text)), r),
{
    if buf.len() < 24 {
        return Err(24);
    }
    let mut codec = ClientTcpCodec::new(buf);
    codec.encode_u32(code);
    match ban_text {
        Some(text) => {
            codec.encode_padded(text.as_slice(), BAN_TEXT_WIDTH);
        },
        None => {
            codec.padding(BAN_TEXT_WIDTH);
        },
    }
    assert(codec.written() =~= failure_body(code, text_view(*ban_text)));
    Ok(24)
}

/// Writes the 160 bytes that describe one character server.
fn encode_server(codec: &mut ClientTcpCodec<'_>, info: &ServerInfo)
    requires
        old(codec).wf(),
        old(codec).room() >= SERVER_RECORD_SIZE,
    ensures
        final(codec).wf(),
        final(codec).written() == old(codec).written() + server_record(*info),
        final(codec).cursor == old(codec).cursor + SERVER_RECORD_SIZE,
        final(codec).kept(old(codec).buf@),
        final(final(codec).buf)@ == final(old(codec).buf)@,
{
    codec.encode_u32_be(info.ip_addr);
    codec.encode_u16(info.port);
    codec.encode_padded(info.name.as_str().as_bytes(), 20);
    codec.encode_u16(info.server_activity.into_u16());
    codec.encode_u16(info.server_type.into_u16());
    codec.padding(130);
    assert(codec.written() =~= old(codec).written() + server_record(*info));
}

/// Writes the body of a successful login.
pub fn serialize_success(info: &CharacterSelectionInfo, buf: &mut [u8]) -> (r: Result<usize, usize>)
    ensures
        serialized(old(buf)@, final(buf)@, success_body(*info), r),
{
    let count = info.char_servers.len();
    proof {
        lemma_success_body_len(*info);
    }
    let size: usize = SUCCESS_HEADER_SIZE + SERVER_RECORD_SIZE * count;
    if buf.len() < size {
        return Err(size);
    }
    let ghost target = final(buf)@;
    let ghost before = buf@;
    let mut codec = ClientTcpCodec::new(buf);
    codec.encode_u16((size + 2) as u16);
    codec.encode_u32(info.authentication_code);
    codec.encode_u32(info.account_id);
    codec.encode_u32(info.user_level);
    codec.padding(30);
    codec.encode_u8(info.sex.into_u8());
    codec.encode_padded(info.web_auth_token.as_slice(), 16);
    codec.padding(1);
    assert(padded(info.web_auth_token@, 16) =~= info.web_auth_token@);
    assert(codec.written() =~= success_header(*info));
    let ghost servers = server_list_items(info.char_servers);
    let mut i: usize = 0;
    while i < count
        invariant
            i <= count,
            count == servers.len(),
            count <= MAX_SERVERS,
            servers == server_list_items(info.char_servers),
            size == SUCCESS_HEADER_SIZE + SERVER_RECORD_SIZE * count,
            codec.wf(),
            codec.cursor == SUCCESS_HEADER_SIZE + SERVER_RECORD_SIZE * i,
            codec.size() >= size,
            codec.size() == before.len(),
            codec.kept(before),
            codec.written() == success_header(*info) + server_records(servers.take(i as int)),
            final(codec.buf)@ == target,
        decreases count - i,
    {
        match info.char_servers.get(i) {
            Some(server) => {
                encode_server(&mut codec, server);
                assert(servers.take(i + 1).drop_last() =~= servers.take(i as int));
                assert(servers.take(i + 1).last() == servers[i as int]);
                assert(codec.written() =~= success_header(*info) + server_records(
                    servers.take(i + 1),
                ));
            },
            None => {},
        }
        i = i + 1;
    }
    assert(servers.take(count as int) =~= servers);
    Ok(size)
}

} // verus!
