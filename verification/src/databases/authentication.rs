//! The table of authentication tickets. The login side files a ticket for
//! each successful login; the character side takes it out when the client
//! presents it. A ticket is good once, and only until it expires.

use vstd::prelude::*;
use crate::account::db::AccountId;
use crate::account::mmo_account::Sex;
use crate::character::request::AccountInfo;
use crate::clock::Timestamp;

verus! {

/// The record of a successful login.
#[derive(Debug, Clone, Copy)]
pub struct AuthenticatedSession {
    pub account_id: AccountId,
    pub authentication_code: u32,
    pub user_level: u32,
    pub sex: Sex,
    pub web_auth_token: [u8; 16],
    /// The ticket is good while the time is before this.
    pub expires_at: Timestamp,
}

impl AuthenticatedSession {
    /// The ticket that a client presents is this one, and it is still good
    /// at time `now`.
    pub open spec fn admits(&self, info: AccountInfo, now: Timestamp) -> bool {
        &&& self.account_id == info.account_id
        &&& self.authentication_code == info.authentication_code
        &&& self.user_level == info.user_level
        &&& now < self.expires_at
    }

    /// Whether the ticket that a client presents is this one and still good at `now`.
    pub fn is_admitted(&self, info: &AccountInfo, now: Timestamp) -> (yes: bool)
        ensures
            yes == self.admits(*info, now),
    {
        self.account_id == info.account_id && self.authentication_code
            == info.authentication_code && self.user_level == info.user_level && now
            < self.expires_at
    }
}

/// The ticket that `info` presents is on file and still good at `now`.
pub open spec fn on_file(
    tickets: Map<AccountId, AuthenticatedSession>,
    info: AccountInfo,
    now: Timestamp,
) -> bool {
    tickets.contains_key(info.account_id) && tickets[info.account_id].admits(info, now)
}

/// `dashmap::DashMap`, the concurrent map that the tables of this crate are
/// kept in. Nothing is known of what is inside one but through the
/// functions below and their like in the other stores.
#[verifier::external_type_specification]
#[verifier::external_body]
#[verifier::reject_recursive_types(K)]
#[verifier::reject_recursive_types(V)]
#[verifier::reject_recursive_types(S)]
pub struct ExDashMap<K, V, S>(dashmap::DashMap<K, V, S>);

/// The tickets that a table holds, by account id.
pub uninterp spec fn ticket_entries(
    table: dashmap::DashMap<AccountId, AuthenticatedSession>,
) -> Map<AccountId, AuthenticatedSession>;

/// `DashMap::new`: a table made this way holds nothing.
#[verifier::external_body]
fn tickets_new() -> (table: dashmap::DashMap<AccountId, AuthenticatedSession>)
    ensures
        forall|id: AccountId| !ticket_entries(table).contains_key(id),
{
    dashmap::DashMap::new()
}

/// `DashMap::insert`: the table holds `session` under `key`, in place of
/// what was there, and is otherwise as before.
#[verifier::external_body]
fn tickets_insert(
    table: &mut dashmap::DashMap<AccountId, AuthenticatedSession>,
    key: AccountId,
    session: AuthenticatedSession,
)
    ensures
        ticket_entries(*final(table)) == ticket_entries(*old(table)).insert(key, session),
{
    table.insert(key, session);
}

/// `DashMap::remove_if` with the test [`AuthenticatedSession::is_admitted`]:
/// the entry under `info.account_id` leaves the table and is returned if it
/// is there and passes the test; otherwise the table stays as it is and
/// nothing is returned.
#[verifier::external_body]
fn tickets_take(
    table: &mut dashmap::DashMap<AccountId, AuthenticatedSession>,
    info: &AccountInfo,
    now: Timestamp,
) -> (taken: Option<AuthenticatedSession>)
    ensures
        match taken {
            Some(session) => {
                &&& ticket_entries(*old(table)).contains_key(info.account_id)
                &&& ticket_entries(*old(table))[info.account_id] == session
                &&& session.admits(*info, now)
                &&& ticket_entries(*final(table)) == ticket_entries(*old(table)).remove(
                    info.account_id,
                )
            },
            None => {
                &&& ticket_entries(*final(table)) == ticket_entries(*old(table))
                &&& !on_file(ticket_entries(*old(table)), *info, now)
            },
        },
{
    table.remove_if(&info.account_id, |_, session| session.is_admitted(info, now)).map(|entry| entry.1)
}

/// The table of tickets, by account.
pub struct AuthenticationDB {
    pub accounts: dashmap::DashMap<AccountId, AuthenticatedSession>,
}

impl AuthenticationDB {
    /// The tickets on file.
    pub open spec fn tickets(&self) -> Map<AccountId, AuthenticatedSession> {
        ticket_entries(self.accounts)
    }

    /// An empty table.
    pub fn new() -> (db: AuthenticationDB)
        ensures
            db.tickets() == Map::<AccountId, AuthenticatedSession>::empty(),
    {
        let db = AuthenticationDB { accounts: tickets_new() };
        assert(db.tickets() =~= Map::<AccountId, AuthenticatedSession>::empty());
        db
    }

    /// Files `session` under its account, in place of any earlier ticket of
    /// that account.
    pub fn authenticate(&mut self, session: AuthenticatedSession)
        ensures
            final(self).tickets() == old(self).tickets().insert(session.account_id, session),
    {
        tickets_insert(&mut self.accounts, session.account_id, session);
    }

    /// Whether the ticket that a client presents at time `now` is on file
    /// and still good. Such a ticket is taken off the file, so that it is
    /// good only once; any other call leaves the file as it is.
    pub fn check_if_authenticated(&mut self, account_info: AccountInfo, now: Timestamp) -> (yes: bool)
        ensures
            yes == on_file(old(self).tickets(), account_info, now),
            yes ==> final(self).tickets() == old(self).tickets().remove(account_info.account_id),
            !yes ==> final(self).tickets() == old(self).tickets(),
    {
        tickets_take(&mut self.accounts, &account_info, now).is_some()
    }
}

} // verus!
