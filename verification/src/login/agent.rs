//! The login agent: it checks credentials against the account store,
//! applies the account's state, and keeps the table of live sessions.

use vstd::prelude::*;
use vstd::utf8::encode_utf8;
use crate::account::db::{has_user, lemma_own_name_is_free, AccountDB, AccountId};
use crate::account::mmo_account::{AccountState, MmoAccount, Password};
use crate::clock::{current_time, Timestamp, SESSION_TTL};
use crate::login::credentials::{CredentialsView, LoginCredentials};
use crate::login::response::LoginFailed;
use crate::text::{bytes_equal, cstr, wire_text, string_from_bytes, text_bytes};

verus! {

/// The sessions that a table holds: for each account, when its session ends.
pub uninterp spec fn active_user_entries(table: dashmap::DashMap<AccountId, Timestamp>) -> Map<
    AccountId,
    Timestamp,
>;

/// `DashMap::new`: a table made this way holds nothing.
#[verifier::external_body]
fn active_users_new() -> (table: dashmap::DashMap<AccountId, Timestamp>)
    ensures
        forall|id: AccountId| !active_user_entries(table).contains_key(id),
{
    dashmap::DashMap::new()
}

/// `DashMap::insert`: the table holds `expires_at` under `key`, in place of
/// what was there, and is otherwise as before.
#[verifier::external_body]
fn active_users_insert(
    table: &mut dashmap::DashMap<AccountId, Timestamp>,
    key: AccountId,
    expires_at: Timestamp,
)
    ensures
        active_user_entries(*final(table)) == active_user_entries(*old(table)).insert(
            key,
            expires_at,
        ),
{
    table.insert(key, expires_at);
}

/// `DashMap::get`, with the value copied out: what the table holds under
/// `key`, if anything.
#[verifier::external_body]
fn active_users_get(table: &dashmap::DashMap<AccountId, Timestamp>, key: AccountId) -> (found: Option<
    Timestamp,
>)
    ensures
        found == (if active_user_entries(*table).contains_key(key) {
            Some(active_user_entries(*table)[key])
        } else {
            None
        }),
{
    table.get(&key).map(|entry| *entry.value())
}

/// The user name that credentials carry.
pub open spec fn user_of(credentials: CredentialsView) -> Seq<char> {
    match credentials {
        CredentialsView::Hashed { username, .. } => wire_text(cstr(username)),
        CredentialsView::ClearText { username, .. } => wire_text(cstr(username)),
        CredentialsView::OTP { account_name, .. } => account_name,
    }
}

/// Whether credentials carry the password of an account. A hash is held
/// against a stored hash, a clear text against a stored clear text, and
/// nothing else matches.
pub open spec fn password_ok(stored: Password, credentials: CredentialsView) -> bool {
    match credentials {
        CredentialsView::Hashed { password, .. } => stored matches Password::MD5Hashed(hash)
            && hash@ == password,
        CredentialsView::ClearText { password, .. } => stored matches Password::Cleartext(text)
            && encode_utf8(text@) == cstr(password),
        CredentialsView::OTP { .. } => false,
    }
}

/// What an account's state allows at time `now`: the state that the account
/// goes on with, or the reason why it may not log in. A ban that has run
/// out is lifted.
pub open spec fn gate(state: AccountState, now: Timestamp) -> Result<AccountState, LoginFailed> {
    match state {
        AccountState::Normal => Ok(AccountState::Normal),
        AccountState::Banned(until) => if now > until {
            Ok(AccountState::Normal)
        } else {
            Err(LoginFailed::BannedUntil(until))
        },
        AccountState::ExpireOn(end) => if now >= end {
            Err(LoginFailed::IdIsExpired)
        } else {
            Ok(AccountState::ExpireOn(end))
        },
    }
}

/// The login counter after one more login. It stops at the largest value.
pub open spec fn bumped(count: isize) -> isize {
    if count < isize::MAX {
        (count + 1) as isize
    } else {
        count
    }
}

/// What is decided of a login to the account `stored` at time `now`: the
/// account as it is saved and returned, or the reason for the refusal.
pub open spec fn judge(stored: MmoAccount, credentials: CredentialsView, now: Timestamp) -> Result<
    MmoAccount,
    LoginFailed,
> {
    if !password_ok(stored.password, credentials) {
        Err(LoginFailed::IncorrectPassword)
    } else {
        match gate(stored.state, now) {
            Err(failure) => Err(failure),
            Ok(state) => Ok(
                MmoAccount {
                    state: state,
                    login_count: bumped(stored.login_count),
                    lastlogin: now,
                    ..stored
                },
            ),
        }
    }
}

/// A ban that has run out lets the account in, and in state `Normal`.
pub proof fn lemma_lapsed_ban_is_lifted(until: Timestamp, now: Timestamp)
    requires
        until < now,
    ensures
        gate(AccountState::Banned(until), now) == Ok::<AccountState, LoginFailed>(
            AccountState::Normal,
        ),
{
}

/// The login agent: the account store and the table of live sessions.
pub struct LoginAgent<A: AccountDB> {
    pub account_db: A,
    pub active_users: dashmap::DashMap<AccountId, Timestamp>,
}

impl<A: AccountDB> LoginAgent<A> {
    /// The live sessions: for each account, when its session ends.
    pub open spec fn sessions(&self) -> Map<AccountId, Timestamp> {
        active_user_entries(self.active_users)
    }

    /// The accounts of the store behind the agent.
    pub open spec fn accounts(&self) -> Map<AccountId, MmoAccount> {
        self.account_db.accounts()
    }

    pub open spec fn valid(&self) -> bool {
        self.account_db.valid()
    }

    /// An agent over `account_db`, with no session open.
    pub fn new(account_db: A) -> (agent: Self)
        requires
            account_db.valid(),
        ensures
            agent.valid(),
            agent.account_db == account_db,
            agent.sessions() == Map::<AccountId, Timestamp>::empty(),
    {
        let agent = LoginAgent { account_db, active_users: active_users_new() };
        assert(agent.sessions() =~= Map::<AccountId, Timestamp>::empty());
        agent
    }

    /// Decides a login at time `now`.
    ///
    /// One-time-password credentials are refused with `RejectedFromServer`.
    /// For an unknown user name, clear-text credentials get
    /// `UnregisteredId` with the name and hashed credentials get
    /// `RejectedFromServer`. Otherwise an account with that user name is
    /// judged, see [`judge`]: on success the account is saved with its
    /// counter raised and its last login set to `now`, and returned.
    pub fn authenticate_at(&mut self, credentials: LoginCredentials, now: Timestamp) -> (r: Result<
        MmoAccount,
        LoginFailed,
    >)
        requires
            old(self).valid(),
        ensures
            final(self).valid(),
            final(self).sessions() == old(self).sessions(),
            authenticated(old(self).accounts(), final(self).accounts(), credentials@, now, r),
    {
        match credentials {
            LoginCredentials::OTP { .. } => Err(LoginFailed::RejectedFromServer),
            LoginCredentials::Hashed { client_type, username, password } => {
                let user = string_from_bytes(text_bytes(username.as_slice()));
                match self.account_db.get_account_by_user(&user) {
                    Ok(account) => {
                        let matches = match &account.password {
                            Password::MD5Hashed(hash) => bytes_equal(
                                hash.as_slice(),
                                password.as_slice(),
                            ),
                            _ => false,
                        };
                        if matches {
                            self.let_in(account, Ghost(credentials@), now)
                        } else {
                            Err(LoginFailed::IncorrectPassword)
                        }
                    },
                    Err(_) => Err(LoginFailed::RejectedFromServer),
                }
            },
            LoginCredentials::ClearText { client_type, username, password } => {
                let user = string_from_bytes(text_bytes(username.as_slice()));
                match self.account_db.get_account_by_user(&user) {
                    Ok(account) => {
                        let matches = match &account.password {
                            Password::Cleartext(text) => bytes_equal(
                                text.as_str().as_bytes(),
                                text_bytes(password.as_slice()),
                            ),
                            _ => false,
                        };
                        if matches {
                            self.let_in(account, Ghost(credentials@), now)
                        } else {
                            Err(LoginFailed::IncorrectPassword)
                        }
                    },
                    Err(_) => Err(LoginFailed::UnregisteredId(user)),
                }
            },
        }
    }

    /// Applies the state of an account whose password was presented, and
    /// saves and returns the account if it may log in.
    fn let_in(
        &mut self,
        account: MmoAccount,
        Ghost(credentials): Ghost<CredentialsView>,
        now: Timestamp,
    ) -> (r: Result<MmoAccount, LoginFailed>)
        requires
            old(self).valid(),
            old(self).accounts().contains_key(account.account_id),
            old(self).accounts()[account.account_id] == account,
            password_ok(account.password, credentials),
        ensures
            final(self).valid(),
            final(self).sessions() == old(self).sessions(),
            match judge(account, credentials, now) {
                Ok(saved) => r == Ok::<MmoAccount, LoginFailed>(saved) && final(self).accounts()
                    == old(self).accounts().insert(account.account_id, saved),
                Err(failure) => r == Err::<MmoAccount, LoginFailed>(failure) && final(self).accounts()
                    == old(self).accounts(),
            },
    {
        let mut account = account;
        match account.state {
            AccountState::Normal => {},
            AccountState::Banned(until) => {
                if now > until {
                    account.state = AccountState::Normal;
                } else {
                    return Err(LoginFailed::BannedUntil(until));
                }
            },
            AccountState::ExpireOn(end) => {
                if now >= end {
                    return Err(LoginFailed::IdIsExpired);
                }
            },
        }
        if account.login_count < isize::MAX {
            account.login_count = account.login_count + 1;
        }
        account.lastlogin = now;
        proof {
            self.account_db.lemma_valid();
            lemma_own_name_is_free(self.account_db.accounts(), account.account_id);
        }
        match self.account_db.save_account(&account) {
            Ok(()) => Ok(account),
            Err(_) => Err(LoginFailed::RejectedFromServer),
        }
    }

    /// Decides a login at the present time: see
    /// [`LoginAgent::authenticate_at`].
    pub fn authenticate(&mut self, credentials: LoginCredentials) -> (r: Result<MmoAccount, LoginFailed>)
        requires
            old(self).valid(),
        ensures
            final(self).valid(),
            final(self).sessions() == old(self).sessions(),
            exists|now: Timestamp|
                authenticated(old(self).accounts(), final(self).accounts(), credentials@, now, r),
    {
        let now = current_time();
        self.authenticate_at(credentials, now)
    }

    /// Opens a session for `account_id` at time `now`: it ends 900 seconds
    /// later. An earlier session of the account is replaced.
    pub fn create_session_at(&mut self, account_id: AccountId, now: Timestamp)
        requires
            old(self).valid(),
        ensures
            final(self).valid(),
            final(self).account_db == old(self).account_db,
            final(self).sessions() == old(self).sessions().insert(account_id, session_end(now)),
    {
        let end = if now <= u64::MAX - SESSION_TTL { now + SESSION_TTL } else { u64::MAX };
        active_users_insert(&mut self.active_users, account_id, end);
    }

    /// Opens a session for `account_id` at the present time.
    pub fn create_session(&mut self, account_id: AccountId)
        requires
            old(self).valid(),
        ensures
            final(self).valid(),
            final(self).account_db == old(self).account_db,
            exists|now: Timestamp|
                final(self).sessions() == old(self).sessions().insert(
                    account_id,
                    session_end(now),
                ),
    {
        let now = current_time();
        self.create_session_at(account_id, now);
    }

    /// When the session of `account_id` ends, if it has one.
    pub fn session_expiry(&self, account_id: AccountId) -> (end: Option<Timestamp>)
        ensures
            end == (if self.sessions().contains_key(account_id) {
                Some(self.sessions()[account_id])
            } else {
                None
            }),
    {
        active_users_get(&self.active_users, account_id)
    }
}

/// When a session that is opened at `now` ends.
pub open spec fn session_end(now: Timestamp) -> Timestamp {
    if now <= u64::MAX - SESSION_TTL {
        (now + SESSION_TTL) as u64
    } else {
        u64::MAX
    }
}

/// What `authenticate` owes: how the answer `r` and the accounts `after`
/// follow from the accounts `before`, the credentials and the time.
pub open spec fn authenticated(
    before: Map<AccountId, MmoAccount>,
    after: Map<AccountId, MmoAccount>,
    credentials: CredentialsView,
    now: Timestamp,
    r: Result<MmoAccount, LoginFailed>,
) -> bool {
    if credentials is OTP {
        r == Err::<MmoAccount, LoginFailed>(LoginFailed::RejectedFromServer) && after == before
    } else if !has_user(before, user_of(credentials)) {
        &&& after == before
        &&& credentials is Hashed ==> r == Err::<MmoAccount, LoginFailed>(
            LoginFailed::RejectedFromServer,
        )
        &&& credentials is ClearText ==> (r matches Err(LoginFailed::UnregisteredId(name))
            && name@ == user_of(credentials))
    } else {
        exists|id: AccountId|
            {
                &&& #[trigger] before.contains_key(id)
                &&& before[id].account_id == id
                &&& before[id].user_id@ == user_of(credentials)
                &&& match judge(before[id], credentials, now) {
                    Ok(saved) => r == Ok::<MmoAccount, LoginFailed>(saved) && after
                        == before.insert(id, saved),
                    Err(failure) => r == Err::<MmoAccount, LoginFailed>(failure) && after
                        == before,
                }
            }
    }
}

} // verus!
