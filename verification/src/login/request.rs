//! Requests of the login protocol and how their bodies are read.

use vstd::prelude::*;
use vstd::slice::slice_subrange;
use crate::codec::{le16, padded, push_bytes, push_u16, push_zeros, zeros};
use crate::login::credentials::{CredentialsView, LoginCredentials};
use crate::login::error::Error;
use crate::text::{copy_zero_terminated_buffer, cstr, lemma_nul_index_bounds, lemma_text_into_zeros};

verus! {

/// The opcodes that a client may send to the login port.
#[derive(Debug, Clone, Copy, PartialEq, Eq, Structural)]
pub enum LoginCommand {
    KeepAlive,
    UpdateClientHash,
    ClientLoginRawPassV1,
    ClientLoginRawPassV2,
    ClientLoginRawPassV3,
    ClientLoginHashedPassV1,
    ClientLoginHashedPassV2,
    ClientLoginHashedPassV3,
    ClientLoginHashedPassV4,
    CodeKey,
    OneTimePassLogin,
    CharConnect,
}

/// What a client asks of the login server.
#[derive(Debug)]
pub enum Request {
    KeepAlive,
    UpdateClientHash([u8; 16]),
    ClientLogin(LoginCredentials),
    CodeKey,
    OneTimeToken,
    ConnectChar,
}

/// The mathematical value of a [`Request`].
pub enum RequestView {
    KeepAlive,
    UpdateClientHash(Seq<u8>),
    ClientLogin(CredentialsView),
    CodeKey,
    OneTimeToken,
    ConnectChar,
}

impl View for Request {
    type V = RequestView;

    open spec fn view(&self) -> RequestView {
        match self {
            Request::KeepAlive => RequestView::KeepAlive,
            Request::UpdateClientHash(hash) => RequestView::UpdateClientHash(hash@),
            Request::ClientLogin(credentials) => RequestView::ClientLogin(credentials@),
            Request::CodeKey => RequestView::CodeKey,
            Request::OneTimeToken => RequestView::OneTimeToken,
            Request::ConnectChar => RequestView::ConnectChar,
        }
    }
}

/// The clear-text credentials that a login body holds: four bytes of client
/// version, the user name, the password, and the client type in the body's
/// last byte.
pub open spec fn cleartext_of(body: Seq<u8>) -> CredentialsView {
    CredentialsView::ClearText {
        client_type: body[body.len() - 1],
        username: padded(cstr(body.subrange(4, 28)), 24),
        password: padded(cstr(body.subrange(28, 52)), 24),
    }
}

/// The hashed credentials that a login body holds: four bytes of client
/// version, the user name, the 16 bytes of the hash, and the client type in
/// the body's last byte.
pub open spec fn hashed_of(body: Seq<u8>) -> CredentialsView {
    CredentialsView::Hashed {
        client_type: body[body.len() - 1],
        username: padded(cstr(body.subrange(4, 28)), 24),
        password: body.subrange(28, 44),
    }
}

/// The view of a parse result.
pub open spec fn parsed(r: Result<(usize, Request), Error>) -> Result<(nat, RequestView), Error> {
    match r {
        Ok((n, request)) => Ok((n as nat, request@)),
        Err(e) => Err(e),
    }
}

impl LoginCommand {
    /// The opcode of this command.
    pub open spec fn code(self) -> u16 {
        match self {
            LoginCommand::KeepAlive => 0x0200,
            LoginCommand::UpdateClientHash => 0x0204,
            LoginCommand::ClientLoginRawPassV1 => 0x0064,
            LoginCommand::ClientLoginRawPassV2 => 0x0277,
            LoginCommand::ClientLoginRawPassV3 => 0x02b0,
            LoginCommand::ClientLoginHashedPassV1 => 0x01dd,
            LoginCommand::ClientLoginHashedPassV2 => 0x01fa,
            LoginCommand::ClientLoginHashedPassV3 => 0x027c,
            LoginCommand::ClientLoginHashedPassV4 => 0x0825,
            LoginCommand::CodeKey => 0x01db,
            LoginCommand::OneTimePassLogin => 0x0acf,
            LoginCommand::CharConnect => 0x2710,
        }
    }

    /// The command that an opcode stands for, if any.
    pub open spec fn of_code(code: u16) -> Option<LoginCommand> {
        if code == 0x0200 {
            Some(LoginCommand::KeepAlive)
        } else if code == 0x0204 {
            Some(LoginCommand::UpdateClientHash)
        } else if code == 0x0064 {
            Some(LoginCommand::ClientLoginRawPassV1)
        } else if code == 0x0277 {
            Some(LoginCommand::ClientLoginRawPassV2)
        } else if code == 0x02b0 {
            Some(LoginCommand::ClientLoginRawPassV3)
        } else if code == 0x01dd {
            Some(LoginCommand::ClientLoginHashedPassV1)
        } else if code == 0x01fa {
            Some(LoginCommand::ClientLoginHashedPassV2)
        } else if code == 0x027c {
            Some(LoginCommand::ClientLoginHashedPassV3)
        } else if code == 0x0825 {
            Some(LoginCommand::ClientLoginHashedPassV4)
        } else if code == 0x01db {
            Some(LoginCommand::CodeKey)
        } else if code == 0x0acf {
            Some(LoginCommand::OneTimePassLogin)
        } else if code == 0x2710 {
            Some(LoginCommand::CharConnect)
        } else {
            None
        }
    }

    /// Number of bytes that follow the opcode in a frame of this command.
    pub open spec fn body_len(self) -> nat {
        match self {
            LoginCommand::KeepAlive => 24,
            LoginCommand::UpdateClientHash => 16,
            LoginCommand::ClientLoginRawPassV1 => 53,
            LoginCommand::ClientLoginRawPassV2 => 82,
            LoginCommand::ClientLoginRawPassV3 => 83,
            LoginCommand::ClientLoginHashedPassV1 => 45,
            LoginCommand::ClientLoginHashedPassV2 => 46,
            LoginCommand::ClientLoginHashedPassV3 => 58,
            LoginCommand::ClientLoginHashedPassV4 => 0,
            LoginCommand::CodeKey => 0,
            LoginCommand::OneTimePassLogin => 0,
            LoginCommand::CharConnect => 0,
        }
    }

    /// The request that a complete body of this command stands for.
    pub open spec fn request_of(self, body: Seq<u8>) -> RequestView {
        match self {
            LoginCommand::KeepAlive => RequestView::KeepAlive,
            LoginCommand::UpdateClientHash => RequestView::UpdateClientHash(body.subrange(0, 16)),
            LoginCommand::ClientLoginRawPassV1 => RequestView::ClientLogin(cleartext_of(body)),
            LoginCommand::ClientLoginRawPassV2 => RequestView::ClientLogin(cleartext_of(body)),
            LoginCommand::ClientLoginRawPassV3 => RequestView::ClientLogin(cleartext_of(body)),
            LoginCommand::ClientLoginHashedPassV1 => RequestView::ClientLogin(hashed_of(body)),
            LoginCommand::ClientLoginHashedPassV2 => RequestView::ClientLogin(hashed_of(body)),
            LoginCommand::ClientLoginHashedPassV3 => RequestView::ClientLogin(hashed_of(body)),
            LoginCommand::ClientLoginHashedPassV4 => RequestView::OneTimeToken,
            LoginCommand::CodeKey => RequestView::CodeKey,
            LoginCommand::OneTimePassLogin => RequestView::OneTimeToken,
            LoginCommand::CharConnect => RequestView::ConnectChar,
        }
    }

    /// What parsing the bytes after the opcode gives: the request and the
    /// number of bytes it took, or how many bytes are still missing.
    pub open spec fn parse_spec(self, buf: Seq<u8>) -> Result<(nat, RequestView), Error> {
        if buf.len() >= self.body_len() {
            Ok((self.body_len(), self.request_of(buf.subrange(0, self.body_len() as int))))
        } else {
            Err(Error::PacketIncomplete((self.body_len() - buf.len()) as usize))
        }
    }

    /// Classifies an opcode.
    pub fn try_from(value: u16) -> (r: Result<LoginCommand, Error>)
        ensures
            LoginCommand::of_code(value) matches Some(command) ==> r == Ok::<LoginCommand, Error>(
                command,
            ),
            LoginCommand::of_code(value) is None ==> r == Err::<LoginCommand, Error>(
                Error::InvalidCommand(value),
            ),
    {
        match value {
            0x0200 => Ok(LoginCommand::KeepAlive),
            0x0204 => Ok(LoginCommand::UpdateClientHash),
            0x0064 => Ok(LoginCommand::ClientLoginRawPassV1),
            0x0277 => Ok(LoginCommand::ClientLoginRawPassV2),
            0x02b0 => Ok(LoginCommand::ClientLoginRawPassV3),
            0x01dd => Ok(LoginCommand::ClientLoginHashedPassV1),
            0x01fa => Ok(LoginCommand::ClientLoginHashedPassV2),
            0x027c => Ok(LoginCommand::ClientLoginHashedPassV3),
            0x0825 => Ok(LoginCommand::ClientLoginHashedPassV4),
            0x01db => Ok(LoginCommand::CodeKey),
            0x0acf => Ok(LoginCommand::OneTimePassLogin),
            0x2710 => Ok(LoginCommand::CharConnect),
            unknown => Err(Error::InvalidCommand(unknown)),
        }
    }

    /// The opcode of this command.
    pub fn command_code(&self) -> (code: u16)
        ensures
            code == self.code(),
    {
        match self {
            LoginCommand::KeepAlive => 0x0200,
            LoginCommand::UpdateClientHash => 0x0204,
            LoginCommand::ClientLoginRawPassV1 => 0x0064,
            LoginCommand::ClientLoginRawPassV2 => 0x0277,
            LoginCommand::ClientLoginRawPassV3 => 0x02b0,
            LoginCommand::ClientLoginHashedPassV1 => 0x01dd,
            LoginCommand::ClientLoginHashedPassV2 => 0x01fa,
            LoginCommand::ClientLoginHashedPassV3 => 0x027c,
            LoginCommand::ClientLoginHashedPassV4 => 0x0825,
            LoginCommand::CodeKey => 0x01db,
            LoginCommand::OneTimePassLogin => 0x0acf,
            LoginCommand::CharConnect => 0x2710,
        }
    }

    /// Number of bytes that follow the opcode in a frame of this command.
    pub fn body_size(&self) -> (n: usize)
        ensures
            n == self.body_len(),
    {
        match self {
            LoginCommand::KeepAlive => 24,
            LoginCommand::UpdateClientHash => 16,
            LoginCommand::ClientLoginRawPassV1 => 53,
            LoginCommand::ClientLoginRawPassV2 => 82,
            LoginCommand::ClientLoginRawPassV3 => 83,
            LoginCommand::ClientLoginHashedPassV1 => 45,
            LoginCommand::ClientLoginHashedPassV2 => 46,
            LoginCommand::ClientLoginHashedPassV3 => 58,
            LoginCommand::ClientLoginHashedPassV4 => 0,
            LoginCommand::CodeKey => 0,
            LoginCommand::OneTimePassLogin => 0,
            LoginCommand::CharConnect => 0,
        }
    }

    /// Reads the body of a frame of this command from the bytes that follow
    /// the opcode. Returns the number of body bytes and the request, or
    /// `PacketIncomplete` with the number of bytes still missing. Bytes
    /// beyond the body are not looked at.
    pub fn parse(&self, buf: &[u8]) -> (r: Result<(usize, Request), Error>)
        ensures
            parsed(r) == self.parse_spec(buf@),
    {
        let need = self.body_size();
        if buf.len() < need {
            return Err(Error::PacketIncomplete(need - buf.len()));
        }
        let body = slice_subrange(buf, 0, need);
        let request = match self {
            LoginCommand::KeepAlive => Request::KeepAlive,
            LoginCommand::UpdateClientHash => {
                let mut hash = [0u8; 16];
                let mut i: usize = 0;
                while i < 16
                    invariant
                        i <= 16,
                        body@.len() == 16,
                        forall|j: int| 0 <= j < i ==> hash@[j] == body@[j],
                    decreases 16 - i,
                {
                    hash[i] = body[i];
                    i = i + 1;
                }
                assert(hash@ =~= body@.subrange(0, 16));
                Request::UpdateClientHash(hash)
            },
            LoginCommand::ClientLoginRawPassV1
            | LoginCommand::ClientLoginRawPassV2
            | LoginCommand::ClientLoginRawPassV3 => Request::ClientLogin(
                parse_cleartext_credentials(body),
            ),
            LoginCommand::ClientLoginHashedPassV1
            | LoginCommand::ClientLoginHashedPassV2
            | LoginCommand::ClientLoginHashedPassV3 => Request::ClientLogin(
                parse_hashed_credentials(body),
            ),
            LoginCommand::ClientLoginHashedPassV4 => Request::OneTimeToken,
            LoginCommand::CodeKey => Request::CodeKey,
            LoginCommand::OneTimePassLogin => Request::OneTimeToken,
            LoginCommand::CharConnect => Request::ConnectChar,
        };
        Ok((need, request))
    }
}

/// Reads a zero-padded 24-byte name field that starts at `start`.
fn read_name(data: &[u8], start: usize) -> (name: [u8; 24])
    requires
        start + 24 <= data@.len(),
    ensures
        name@ == padded(cstr(data@.subrange(start as int, start + 24)), 24),
{
    let mut name = [0u8; 24];
    assert(start + 24 <= data.len());
    let field = slice_subrange(data, start, start + 24);
    proof {
        lemma_nul_index_bounds(field@);
        lemma_text_into_zeros(field@, 24);
        assert(name@ =~= zeros(24));
    }
    copy_zero_terminated_buffer(&mut name, field);
    name
}

/// Reads clear-text credentials from a login body of at least 53 bytes.
pub fn parse_cleartext_credentials(data: &[u8]) -> (credentials: LoginCredentials)
    requires
        data@.len() >= 53,
    ensures
        credentials@ == cleartext_of(data@),
{
    let username = read_name(data, 4);
    let password = read_name(data, 28);
    LoginCredentials::ClearText { client_type: data[data.len() - 1], username, password }
}

/// Reads hashed credentials from a login body of at least 45 bytes.
pub fn parse_hashed_credentials(data: &[u8]) -> (credentials: LoginCredentials)
    requires
        data@.len() >= 45,
    ensures
        credentials@ == hashed_of(data@),
{
    let username = read_name(data, 4);
    let mut password = [0u8; 16];
    let mut i: usize = 0;
    while i < 16
        invariant
            i <= 16,
            data@.len() >= 45,
            forall|j: int| 0 <= j < i ==> password@[j] == data@[28 + j],
        decreases 16 - i,
    {
        password[i] = data[28 + i];
        i = i + 1;
    }
    assert(password@ =~= data@.subrange(28, 44));
    LoginCredentials::Hashed { client_type: data[data.len() - 1], username, password }
}

/// Number of unused bytes in a body of `command` of which `used` bytes
/// hold fields.
pub open spec fn filler(command: LoginCommand, used: nat) -> nat {
    if command.body_len() >= used {
        (command.body_len() - used) as nat
    } else {
        0
    }
}

/// The body that stands for a request in a frame of `command`: unused
/// bytes are zero.
pub open spec fn request_body(command: LoginCommand, request: RequestView) -> Seq<u8> {
    match request {
        RequestView::KeepAlive => zeros(24),
        RequestView::UpdateClientHash(hash) => hash,
        RequestView::ClientLogin(CredentialsView::ClearText { client_type, username, password }) => {
            zeros(4) + username + password + zeros(filler(command, 53)) + seq![
                client_type,
            ]
        },
        RequestView::ClientLogin(CredentialsView::Hashed { client_type, username, password }) => {
            zeros(4) + username + password + zeros(filler(command, 45)) + seq![
                client_type,
            ]
        },
        _ => Seq::<u8>::empty(),
    }
}

/// The frame that stands for a request under the opcode of `command`.
pub open spec fn request_frame(command: LoginCommand, request: RequestView) -> Seq<u8> {
    le16(command.code()) + request_body(command, request)
}

/// The frame that stands for `request` under the opcode of `command`: what
/// a client sends. Unused bytes are zero.
pub fn encode_request(command: &LoginCommand, request: &Request) -> (frame: Vec<u8>)
    ensures
        frame@ == request_frame(*command, request@),
{
    let mut frame: Vec<u8> = Vec::new();
    push_u16(&mut frame, command.command_code());
    let ghost head = frame@;
    assert(head =~= le16(command.code()));
    let size = command.body_size();
    match request {
        Request::KeepAlive => {
            push_zeros(&mut frame, 24);
        },
        Request::UpdateClientHash(hash) => {
            push_bytes(&mut frame, hash.as_slice());
        },
        Request::ClientLogin(LoginCredentials::ClearText { client_type, username, password }) => {
            push_zeros(&mut frame, 4);
            push_bytes(&mut frame, username.as_slice());
            push_bytes(&mut frame, password.as_slice());
            push_zeros(&mut frame, if size >= 53 { size - 53 } else { 0 });
            frame.push(*client_type);
            assert(frame@ =~= head + request_body(*command, request@));
        },
        Request::ClientLogin(LoginCredentials::Hashed { client_type, username, password }) => {
            push_zeros(&mut frame, 4);
            push_bytes(&mut frame, username.as_slice());
            push_bytes(&mut frame, password.as_slice());
            push_zeros(&mut frame, if size >= 45 { size - 45 } else { 0 });
            frame.push(*client_type);
            assert(frame@ =~= head + request_body(*command, request@));
        },
        _ => {
            assert(frame@ =~= head + request_body(*command, request@));
        },
    }
    frame
}

} // verus!
