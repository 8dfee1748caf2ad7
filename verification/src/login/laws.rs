//! What holds of the login protocol's decoder on every input.

use vstd::prelude::*;
use crate::codec::{le16, lemma_word_roundtrip, zeros, DecodeResult};
use crate::login::codec::decode_spec;
use crate::login::credentials::CredentialsView;
use crate::login::error::Error;
use crate::login::request::{request_body, request_frame, LoginCommand, RequestView};
use crate::text::is_canonical;
use crate::utils::word_of;
use crate::account::db::AccountId;
use crate::account::mmo_account::{AccountState, MmoAccount};
use crate::character::server_list::{server_list_items, MAX_SERVERS};
use crate::character::ServerInfo;
use crate::clock::Timestamp;
use crate::databases::authentication::AuthenticatedSession;
use crate::account::db::{has_user, keyed_by_id, unique_users};
use crate::login::agent::{authenticated, bumped, judge, password_ok, user_of};
use crate::login::response::{lemma_success_body_len, CharacterSelectionInfo, LoginFailed, Response};
use crate::login::session::{login_answered, LoginState, Reply};

verus! {

/// Decoding is prefix-stable: bytes that decode to a request of their full
/// length decode to the same request, with the same length, whatever is
/// appended to them.
pub proof fn lemma_decode_prefix_stable(frame: Seq<u8>, suffix: Seq<u8>)
    requires
        decode_spec(frame).1 is Item,
    ensures
        decode_spec(frame + suffix) == decode_spec(frame),
{
    let longer = frame + suffix;
    assert(frame.len() >= 2);
    assert(longer[0] == frame[0] && longer[1] == frame[1]);
    let command = LoginCommand::of_code(word_of(frame))->0;
    let n = command.body_len() as int;
    let rest = frame.subrange(2, frame.len() as int);
    let longer_rest = longer.subrange(2, longer.len() as int);
    assert(rest.len() >= n);
    assert(longer_rest.subrange(0, n) =~= rest.subrange(0, n));
}

/// A request takes exactly the opcode and the body that its opcode
/// declares.
pub proof fn lemma_decode_consumes_frame(buffer: Seq<u8>)
    requires
        decode_spec(buffer).1 is Item,
    ensures
        LoginCommand::of_code(word_of(buffer)) matches Some(command) && decode_spec(buffer).0 == 2
            + command.body_len(),
        decode_spec(buffer).0 <= buffer.len(),
{
}

/// Bytes that are shorter than the frame that their opcode declares ask for
/// more bytes, and none is taken.
pub proof fn lemma_short_buffer_waits(buffer: Seq<u8>)
    requires
        buffer.len() < 2 || (LoginCommand::of_code(word_of(buffer)) matches Some(command)
            && buffer.len() < 2 + command.body_len()),
    ensures
        decode_spec(buffer) == (0nat, DecodeResult::<RequestView, Error>::UnexpectedEnd),
{
}

/// An opcode that is not of the protocol is a fatal error, and no byte is
/// taken.
pub proof fn lemma_invalid_opcode_fails(buffer: Seq<u8>)
    requires
        buffer.len() >= 2,
        LoginCommand::of_code(word_of(buffer)) is None,
    ensures
        decode_spec(buffer) == (
            0nat,
            DecodeResult::<RequestView, Error>::Failed(Error::InvalidCommand(word_of(buffer))),
        ),
{
}

/// A body is well formed when the bytes that the decoder ignores are zero:
/// the client version, what follows the first zero byte of a name or a
/// clear-text password, and what stands between the last field and the
/// client type.
pub open spec fn well_formed(command: LoginCommand, body: Seq<u8>) -> bool {
    &&& body.len() == command.body_len()
    &&& match command {
        LoginCommand::KeepAlive => body == zeros(24),
        LoginCommand::UpdateClientHash => true,
        LoginCommand::ClientLoginRawPassV1
        | LoginCommand::ClientLoginRawPassV2
        | LoginCommand::ClientLoginRawPassV3 => {
            &&& body.subrange(0, 4) == zeros(4)
            &&& is_canonical(body.subrange(4, 28))
            &&& is_canonical(body.subrange(28, 52))
            &&& body.subrange(52, body.len() - 1) == zeros((body.len() - 53) as nat)
        },
        LoginCommand::ClientLoginHashedPassV1
        | LoginCommand::ClientLoginHashedPassV2
        | LoginCommand::ClientLoginHashedPassV3 => {
            &&& body.subrange(0, 4) == zeros(4)
            &&& is_canonical(body.subrange(4, 28))
            &&& body.subrange(44, body.len() - 1) == zeros((body.len() - 45) as nat)
        },
        _ => true,
    }
}

/// Decoding a frame with a well-formed body and encoding the request again
/// gives the frame.
pub proof fn lemma_decode_then_encode(command: LoginCommand, body: Seq<u8>)
    requires
        well_formed(command, body),
    ensures
        decode_spec(le16(command.code()) + body).0 == 2 + body.len(),
        decode_spec(le16(command.code()) + body).1 matches DecodeResult::Item(request)
            && request_frame(command, request) == le16(command.code()) + body,
{
    let frame = le16(command.code()) + body;
    lemma_word_roundtrip(command.code());
    assert(frame[0] == le16(command.code())[0] && frame[1] == le16(command.code())[1]);
    assert(word_of(frame) == command.code());
    assert(LoginCommand::of_code(command.code()) == Some(command));
    let rest = frame.subrange(2, frame.len() as int);
    assert(rest =~= body);
    assert(rest.subrange(0, command.body_len() as int) =~= body);
    let request = command.request_of(body);
    match command {
        LoginCommand::KeepAlive => {},
        LoginCommand::UpdateClientHash => {
            assert(body.subrange(0, 16) =~= body);
        },
        LoginCommand::ClientLoginRawPassV1
        | LoginCommand::ClientLoginRawPassV2
        | LoginCommand::ClientLoginRawPassV3 => {
            assert(request_body(command, request) =~= body) by {
                let made = request_body(command, request);
                assert(made.len() == body.len());
                assert forall|i: int| 0 <= i < body.len() implies made[i] == body[i] by {
                    if i < 4 {
                        assert(body.subrange(0, 4)[i] == body[i]);
                    } else if i < 28 {
                        assert(body.subrange(4, 28)[i - 4] == body[i]);
                    } else if i < 52 {
                        assert(body.subrange(28, 52)[i - 28] == body[i]);
                    } else if i < body.len() - 1 {
                        assert(body.subrange(52, body.len() - 1)[i - 52] == body[i]);
                    }
                }
            }
        },
        LoginCommand::ClientLoginHashedPassV1
        | LoginCommand::ClientLoginHashedPassV2
        | LoginCommand::ClientLoginHashedPassV3 => {
            assert(request_body(command, request) =~= body) by {
                let made = request_body(command, request);
                assert(made.len() == body.len());
                assert forall|i: int| 0 <= i < body.len() implies made[i] == body[i] by {
                    if i < 4 {
                        assert(body.subrange(0, 4)[i] == body[i]);
                    } else if i < 28 {
                        assert(body.subrange(4, 28)[i - 4] == body[i]);
                    } else if i < 44 {
                        assert(body.subrange(28, 44)[i - 28] == body[i]);
                    } else if i < body.len() - 1 {
                        assert(body.subrange(44, body.len() - 1)[i - 44] == body[i]);
                    }
                }
            }
        },
        _ => {
            assert(body =~= Seq::<u8>::empty());
        },
    }
}

/// The answer to a successful login that lists `n` servers, opcode
/// included, is exactly `64 + 160 * n` bytes long, the number that its size
/// field holds.
pub proof fn lemma_success_frame_len(info: CharacterSelectionInfo)
    requires
        server_list_items(info.char_servers).len() <= MAX_SERVERS,
    ensures
        Response::LoginSuccessV3(info).frame().len() == 64 + 160 * server_list_items(
            info.char_servers,
        ).len(),
        Response::LoginSuccessV3(info).frame().subrange(2, 4) == le16(
            Response::LoginSuccessV3(info).frame().len() as u16,
        ),
{
    lemma_success_body_len(info);
    let response = Response::LoginSuccessV3(info);
    assert(le16(response.code()).len() == 2);
    assert(response.frame().subrange(2, 4) =~= response.body().subrange(0, 2));
}

/// An account whose ban has run out and whose password is presented is let
/// in and saved in state `Normal`.
pub proof fn lemma_lapsed_ban_lets_in(
    stored: MmoAccount,
    credentials: CredentialsView,
    until: Timestamp,
    now: Timestamp,
)
    requires
        stored.state == AccountState::Banned(until),
        until < now,
        password_ok(stored.password, credentials),
    ensures
        judge(stored, credentials, now) matches Ok(saved) && saved.state == AccountState::Normal
            && saved.account_id == stored.account_id,
{
}

/// A login to an account whose ban has run out succeeds: with credentials
/// that carry the account's user name, which is not empty, and its
/// password, the answer is the account in state `Normal`, with its counter
/// raised and its last login set, and the store holds it so afterwards.
pub proof fn lemma_login_lifts_lapsed_ban(
    before: Map<AccountId, MmoAccount>,
    after: Map<AccountId, MmoAccount>,
    credentials: CredentialsView,
    now: Timestamp,
    r: Result<MmoAccount, LoginFailed>,
    id: AccountId,
    until: Timestamp,
)
    requires
        keyed_by_id(before),
        unique_users(before),
        before.contains_key(id),
        before[id].state == AccountState::Banned(until),
        until < now,
        before[id].user_id@.len() > 0,
        user_of(credentials) == before[id].user_id@,
        password_ok(before[id].password, credentials),
        authenticated(before, after, credentials, now, r),
    ensures
        r matches Ok(account) && account.account_id == id && account.state
            == AccountState::Normal && account.login_count == bumped(before[id].login_count)
            && account.lastlogin == now && after == before.insert(id, account),
        after.contains_key(id),
        after[id].state == AccountState::Normal,
        after[id].login_count == bumped(before[id].login_count),
{
    assert(before.contains_key(id) && before[id].user_id@ == user_of(credentials));
    assert(has_user(before, user_of(credentials)));
    let found = choose|found: AccountId|
        {
            &&& #[trigger] before.contains_key(found)
            &&& before[found].account_id == found
            &&& before[found].user_id@ == user_of(credentials)
            &&& match judge(before[found], credentials, now) {
                Ok(saved) => r == Ok::<MmoAccount, LoginFailed>(saved) && after == before.insert(
                    found,
                    saved,
                ),
                Err(failure) => r == Err::<MmoAccount, LoginFailed>(failure) && after == before,
            }
        };
    if found != id {
        assert(before[id].user_id@ != before[found].user_id@);
    }
}

/// A login that succeeds at time `now` opens a session and files a ticket
/// that both end 900 seconds later.
pub proof fn lemma_login_opens_session(
    account: MmoAccount,
    servers: Seq<ServerInfo>,
    authentication_code: u32,
    user_level: u32,
    now: Timestamp,
    old_sessions: Map<AccountId, Timestamp>,
    new_sessions: Map<AccountId, Timestamp>,
    old_tickets: Map<AccountId, AuthenticatedSession>,
    new_tickets: Map<AccountId, AuthenticatedSession>,
    new_state: LoginState,
    reply: Reply,
)
    requires
        now + 900 <= u64::MAX,
        login_answered(
            Ok::<MmoAccount, LoginFailed>(account),
            servers,
            authentication_code,
            user_level,
            now,
            old_sessions,
            new_sessions,
            old_tickets,
            new_tickets,
            new_state,
            reply,
        ),
    ensures
        new_sessions.contains_key(account.account_id),
        new_sessions[account.account_id] == now + 900,
        new_tickets.contains_key(account.account_id),
        new_tickets[account.account_id].expires_at == now + 900,
        new_tickets[account.account_id].authentication_code == authentication_code,
        new_tickets[account.account_id].user_level == user_level,
{
}

} // verus!
