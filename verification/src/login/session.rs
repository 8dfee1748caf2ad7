//! One connection to the login server: what state it is in and what each
//! request does to it, to the accounts and to the table of tickets.

use vstd::prelude::*;
use crate::account::db::{AccountDB, AccountId};
use crate::account::mmo_account::MmoAccount;
use crate::character::server_list::{server_list_items, ServerList};
use crate::character::ServerInfo;
use crate::clock::{current_time, Timestamp};
use crate::databases::authentication::{AuthenticatedSession, AuthenticationDB};
use crate::login::agent::{authenticated, session_end, LoginAgent};
use crate::login::request::{Request, RequestView};
use crate::login::response::{CharacterSelectionInfo, LoginAborted, LoginFailed, Response};
use crate::random::random_u32;

verus! {

/// Where a connection stands.
#[derive(Debug, Clone, Copy, PartialEq, Eq, Structural)]
pub enum LoginState {
    BeforeLogin,
    /// A login succeeded: nothing more is handled on this connection.
    Authenticated,
}

/// The state of one connection to the login server.
pub struct LoginSession {
    pub state: LoginState,
    /// The hash of the client's executable, once the client has sent it.
    pub client_hash: Option<[u8; 16]>,
    /// The character servers as they were when the connection was made.
    pub char_servers: ServerList,
}

/// What a request is answered with.
pub struct Reply {
    /// The response to send, if any.
    pub response: Option<Response>,
    /// Whether the handling of this connection ends once the response is
    /// sent.
    pub close: bool,
}

/// The ticket that is filed for a login.
pub open spec fn ticket_of(
    account: MmoAccount,
    authentication_code: u32,
    user_level: u32,
    now: Timestamp,
) -> AuthenticatedSession {
    AuthenticatedSession {
        account_id: account.account_id,
        authentication_code,
        user_level,
        sex: account.sex,
        web_auth_token: account.web_auth_token,
        expires_at: session_end(now),
    }
}

/// What a login that the agent decided as `r` does: a success opens a
/// session, files a ticket and is answered with the ticket and the server
/// list, and ends the handling of the connection; a failure is answered
/// with its reason and changes nothing.
pub open spec fn login_answered(
    r: Result<MmoAccount, LoginFailed>,
    servers: Seq<ServerInfo>,
    authentication_code: u32,
    user_level: u32,
    now: Timestamp,
    old_sessions: Map<AccountId, Timestamp>,
    new_sessions: Map<AccountId, Timestamp>,
    old_tickets: Map<AccountId, AuthenticatedSession>,
    new_tickets: Map<AccountId, AuthenticatedSession>,
    new_state: LoginState,
    reply: Reply,
) -> bool {
    match r {
        Ok(account) => {
            &&& new_state == LoginState::Authenticated
            &&& reply.close
            &&& new_sessions == old_sessions.insert(account.account_id, session_end(now))
            &&& new_tickets == old_tickets.insert(
                account.account_id,
                ticket_of(account, authentication_code, user_level, now),
            )
            &&& reply.response matches Some(Response::LoginSuccessV3(info))
            &&& info.account_id == account.account_id
            &&& info.authentication_code == authentication_code
            &&& info.user_level == user_level
            &&& info.sex == account.sex
            &&& info.web_auth_token == account.web_auth_token
            &&& server_list_items(info.char_servers) == servers
        },
        Err(failure) => {
            &&& new_state == LoginState::BeforeLogin
            &&& !reply.close
            &&& new_sessions == old_sessions
            &&& new_tickets == old_tickets
            &&& reply.response matches Some(Response::LoginFailed(reason))
            &&& reason == failure
        },
    }
}

impl LoginSession {
    /// A session for a new connection. It keeps `char_servers` as its
    /// snapshot of the character servers.
    pub fn new(char_servers: ServerList) -> (session: Self)
        ensures
            session.state == LoginState::BeforeLogin,
            session.client_hash is None,
            session.char_servers == char_servers,
    {
        LoginSession { state: LoginState::BeforeLogin, client_hash: None, char_servers }
    }

    /// Handles one request at time `now`. `authentication_code` and
    /// `user_level` are the two halves of the ticket that is minted should
    /// the request be a login that succeeds.
    ///
    /// Once a login has succeeded nothing is answered any more. Before
    /// that, `KeepAlive` is ignored; `UpdateClientHash` records the hash;
    /// `ClientLogin` is decided by the agent, see [`login_answered`];
    /// `CodeKey`, `OneTimeToken` and `ConnectChar` are answered with
    /// `LoginAborted(ServerClosed)`, and the connection is closed.
    pub fn process_request_at<A: AccountDB>(
        &mut self,
        agent: &mut LoginAgent<A>,
        tickets: &mut AuthenticationDB,
        request: Request,
        now: Timestamp,
        authentication_code: u32,
        user_level: u32,
    ) -> (reply: Reply)
        requires
            old(agent).valid(),
        ensures
            final(agent).valid(),
            server_list_items(final(self).char_servers) == server_list_items(
                old(self).char_servers,
            ),
            login_handled(
                *old(self),
                *final(self),
                *old(agent),
                *final(agent),
                old(tickets).tickets(),
                final(tickets).tickets(),
                request@,
                now,
                authentication_code,
                user_level,
                reply,
            ),
    {
        match self.state {
            LoginState::Authenticated => Reply { response: None, close: true },
            LoginState::BeforeLogin => match request {
                Request::KeepAlive => Reply { response: None, close: false },
                Request::UpdateClientHash(hash) => {
                    self.client_hash = Some(hash);
                    Reply { response: None, close: false }
                },
                Request::ClientLogin(credentials) => {
                    let ghost asked = credentials@;
                    let r = agent.authenticate_at(credentials, now);
                    let ghost decided = r;
                    match r {
                        Ok(account) => {
                            let info = CharacterSelectionInfo {
                                account_id: account.account_id,
                                authentication_code,
                                user_level,
                                sex: account.sex,
                                web_auth_token: account.web_auth_token,
                                char_servers: self.char_servers.snapshot(),
                            };
                            agent.create_session_at(account.account_id, now);
                            tickets.authenticate(
                                AuthenticatedSession {
                                    account_id: account.account_id,
                                    authentication_code,
                                    user_level,
                                    sex: account.sex,
                                    web_auth_token: account.web_auth_token,
                                    expires_at: end_of_session(now),
                                },
                            );
                            self.state = LoginState::Authenticated;
                            let reply = Reply {
                                response: Some(Response::LoginSuccessV3(info)),
                                close: true,
                            };
                            proof {
                                assert(authenticated(
                                    old(agent).accounts(),
                                    agent.accounts(),
                                    asked,
                                    now,
                                    decided,
                                ));
                            }
                            reply
                        },
                        Err(failure) => {
                            let reply = Reply {
                                response: Some(Response::LoginFailed(failure)),
                                close: false,
                            };
                            proof {
                                assert(authenticated(
                                    old(agent).accounts(),
                                    agent.accounts(),
                                    asked,
                                    now,
                                    decided,
                                ));
                            }
                            reply
                        },
                    }
                },
                Request::CodeKey | Request::OneTimeToken | Request::ConnectChar => Reply {
                    response: Some(Response::LoginAborted(LoginAborted::ServerClosed)),
                    close: true,
                },
            },
        }
    }

    /// Handles one request at the present time, with a ticket drawn at
    /// random from the non-zero 32-bit numbers: see
    /// [`LoginSession::process_request_at`].
    pub fn process_request<A: AccountDB>(
        &mut self,
        agent: &mut LoginAgent<A>,
        tickets: &mut AuthenticationDB,
        request: Request,
    ) -> (reply: Reply)
        requires
            old(agent).valid(),
        ensures
            final(agent).valid(),
            exists|now: Timestamp, authentication_code: u32, user_level: u32|
                authentication_code != 0 && user_level != 0 && login_handled(
                    *old(self),
                    *final(self),
                    *old(agent),
                    *final(agent),
                    old(tickets).tickets(),
                    final(tickets).tickets(),
                    request@,
                    now,
                    authentication_code,
                    user_level,
                    reply,
                ),
    {
        let now = current_time();
        let authentication_code = random_u32(1, u32::MAX - 1);
        let user_level = random_u32(1, u32::MAX - 1);
        self.process_request_at(agent, tickets, request, now, authentication_code, user_level)
    }
}

/// When a session that is opened at `now` ends.
fn end_of_session(now: Timestamp) -> (end: Timestamp)
    ensures
        end == session_end(now),
{
    if now <= u64::MAX - crate::clock::SESSION_TTL {
        now + crate::clock::SESSION_TTL
    } else {
        u64::MAX
    }
}

/// What `process_request_at` owes.
pub open spec fn login_handled<A: AccountDB>(
    before: LoginSession,
    after: LoginSession,
    old_agent: LoginAgent<A>,
    new_agent: LoginAgent<A>,
    old_tickets: Map<AccountId, AuthenticatedSession>,
    new_tickets: Map<AccountId, AuthenticatedSession>,
    request: RequestView,
    now: Timestamp,
    authentication_code: u32,
    user_level: u32,
    reply: Reply,
) -> bool {
    let unchanged = {
        &&& new_agent.accounts() == old_agent.accounts()
        &&& new_agent.sessions() == old_agent.sessions()
        &&& new_tickets == old_tickets
    };
    match before.state {
        LoginState::Authenticated => {
            &&& after.state == LoginState::Authenticated
            &&& after.client_hash == before.client_hash
            &&& unchanged
            &&& reply.response is None
            &&& reply.close
        },
        LoginState::BeforeLogin => match request {
            RequestView::KeepAlive => {
                &&& after.state == LoginState::BeforeLogin
                &&& after.client_hash == before.client_hash
                &&& unchanged
                &&& reply.response is None
                &&& !reply.close
            },
            RequestView::UpdateClientHash(hash) => {
                &&& after.state == LoginState::BeforeLogin
                &&& after.client_hash matches Some(recorded) && recorded@ == hash
                &&& unchanged
                &&& reply.response is None
                &&& !reply.close
            },
            RequestView::ClientLogin(credentials) => {
                &&& after.client_hash == before.client_hash
                &&& exists|r: Result<MmoAccount, LoginFailed>|
                    {
                        &&& #[trigger] authenticated(
                            old_agent.accounts(),
                            new_agent.accounts(),
                            credentials,
                            now,
                            r,
                        )
                        &&& login_answered(
                            r,
                            server_list_items(before.char_servers),
                            authentication_code,
                            user_level,
                            now,
                            old_agent.sessions(),
                            new_agent.sessions(),
                            old_tickets,
                            new_tickets,
                            after.state,
                            reply,
                        )
                    }
            },
            _ => {
                &&& after.state == LoginState::BeforeLogin
                &&& after.client_hash == before.client_hash
                &&& unchanged
                &&& reply.response matches Some(Response::LoginAborted(reason))
                &&& reason == LoginAborted::ServerClosed
                &&& reply.close
            },
        },
    }
}

} // verus!
