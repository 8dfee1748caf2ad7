//! Identifiers, errors and the interface of the account store.

use vstd::prelude::*;
use crate::account::mmo_account::{
    AccountState, MmoAccount, Password, Sex, LOCALHOST, MAX_CHARS,
};
use crate::clock::start_of_day;
use crate::clock::Timestamp;

verus! {

/// The number that an account is known by.
pub type AccountId = u32;

/// The name that a user logs in with.
pub type UserId = String;

/// Why an operation of the account store failed.
#[derive(Debug)]
pub enum DBError {
    NoSuchAccount(AccountId),
    NoSuchUser(UserId),
    AccountAlreadyExists(AccountId),
}

/// What an operation of the account store answers.
pub type DBResult<T> = Result<T, DBError>;

/// How often a new account id is drawn before giving up.
pub const CREATE_RETRIES: usize = 10;

/// Every account is filed under its own id.
pub open spec fn keyed_by_id(accounts: Map<AccountId, MmoAccount>) -> bool {
    forall|id: AccountId| #[trigger] accounts.contains_key(id) ==> accounts[id].account_id == id
}

/// Some account of `accounts` has the user name `user`.
pub open spec fn has_user(accounts: Map<AccountId, MmoAccount>, user: Seq<char>) -> bool {
    exists|id: AccountId| #[trigger] accounts.contains_key(id) && accounts[id].user_id@ == user
}

/// No two accounts share a user name that is not empty.
pub open spec fn unique_users(accounts: Map<AccountId, MmoAccount>) -> bool {
    forall|a: AccountId, b: AccountId|
        #![trigger accounts[a], accounts[b]]
        accounts.contains_key(a) && accounts.contains_key(b) && a != b
            && accounts[a].user_id@.len() > 0 ==> accounts[a].user_id@ != accounts[b].user_id@
}

/// The account `other`, which is not `account_id`, has the user name `user`.
pub open spec fn holds_user(
    accounts: Map<AccountId, MmoAccount>,
    other: AccountId,
    account_id: AccountId,
    user: Seq<char>,
) -> bool {
    other != account_id && accounts.contains_key(other) && accounts[other].user_id@ == user
}

/// The user name `user` is not empty and belongs to another account than
/// `account_id`: the account `account_id` may not take it.
pub open spec fn clashes(
    accounts: Map<AccountId, MmoAccount>,
    account_id: AccountId,
    user: Seq<char>,
) -> bool {
    user.len() > 0 && exists|other: AccountId| #[trigger] holds_user(accounts, other, account_id, user)
}

/// What a search by user name owes: an account of that name from the store,
/// or `NoSuchUser` where the store holds none.
pub open spec fn found_by_user(
    accounts: Map<AccountId, MmoAccount>,
    user: Seq<char>,
    r: DBResult<MmoAccount>,
) -> bool {
    match r {
        Ok(account) => {
            &&& accounts.contains_key(account.account_id)
            &&& accounts[account.account_id] == account
            &&& account.user_id@ == user
        },
        Err(e) => {
            &&& !has_user(accounts, user)
            &&& e matches DBError::NoSuchUser(name)
            &&& name@ == user
        },
    }
}

/// An account that enters a store under its id, in place of what was there,
/// with a user name that does not clash, leaves the user names unique.
pub proof fn lemma_insert_keeps_unique(accounts: Map<AccountId, MmoAccount>, account: MmoAccount)
    requires
        unique_users(accounts),
        !clashes(accounts, account.account_id, account.user_id@),
    ensures
        unique_users(accounts.insert(account.account_id, account)),
{
    let id = account.account_id;
    let after = accounts.insert(id, account);
    assert forall|a: AccountId, b: AccountId|
        #![trigger after[a], after[b]]
        after.contains_key(a) && after.contains_key(b) && a != b && after[a].user_id@.len()
            > 0 implies after[a].user_id@ != after[b].user_id@ by {
        if a == id {
            if after[b].user_id@ == account.user_id@ {
                assert(holds_user(accounts, b, id, account.user_id@));
            }
        } else if b == id {
            if accounts[a].user_id@ == account.user_id@ {
                assert(holds_user(accounts, a, id, account.user_id@));
            }
        } else {
            assert(accounts[a].user_id@ != accounts[b].user_id@);
        }
    }
}

/// In a store of unique user names, the user name of an account clashes
/// with no other account.
pub proof fn lemma_own_name_is_free(accounts: Map<AccountId, MmoAccount>, id: AccountId)
    requires
        unique_users(accounts),
        accounts.contains_key(id),
    ensures
        !clashes(accounts, id, accounts[id].user_id@),
{
    let user = accounts[id].user_id@;
    if clashes(accounts, id, user) {
        let other = choose|other: AccountId| #[trigger] holds_user(accounts, other, id, user);
        assert(accounts[id].user_id@ != accounts[other].user_id@);
    }
}

/// The development account that every store starts with, as it is when
/// made at time `now`: a new account but for its user name and password.
pub open spec fn is_fixture_at(account: MmoAccount, now: Timestamp) -> bool {
    &&& account.account_id == 2_000_042
    &&& account.user_id@ == "sadroeck"@
    &&& account.password matches Password::Cleartext(text) && text@ == "olasenor"@
    &&& account.sex == Sex::Male
    &&& account.email@ == "a@a.com"@
    &&& account.group_id is None
    &&& account.char_slots == MAX_CHARS
    &&& account.state == AccountState::Normal
    &&& account.login_count == 0
    &&& account.lastlogin == now
    &&& account.last_ip == LOCALHOST
    &&& account.birth_date == start_of_day(now)
    &&& account.pincode@ == seq![0u8, 0u8, 0u8, 0u8]
    &&& account.pincode_change == now
    &&& account.web_auth_token@ == Seq::new(16, |i: int| 0u8)
}

/// The development account that every store starts with.
pub open spec fn is_fixture(account: MmoAccount) -> bool {
    exists|now: Timestamp| is_fixture_at(account, now)
}

/// `after` is `before` with a web token of zeros.
pub open spec fn token_cleared(before: MmoAccount, after: MmoAccount) -> bool {
    &&& after.web_auth_token@ == Seq::new(16, |i: int| 0u8)
    &&& before == (MmoAccount { web_auth_token: before.web_auth_token, ..after })
}

/// A store of accounts. Its state is a map from account id to account, and
/// every operation is stated over that map.
pub trait AccountDB {
    /// The accounts that the store holds.
    spec fn accounts(&self) -> Map<AccountId, MmoAccount>;

    /// The store's own invariant. It includes [`keyed_by_id`].
    spec fn valid(&self) -> bool;

    proof fn lemma_valid(&self)
        requires
            self.valid(),
        ensures
            keyed_by_id(self.accounts()),
            unique_users(self.accounts()),
    ;

    /// Installs the development account `sadroeck`, id 2 000 042, whose
    /// clear-text password is `olasenor`, in place of what stood under that
    /// id. Where another account has that user name, the answer is
    /// `AccountAlreadyExists` with the id of such an account, and the store
    /// is left as it was.
    fn init(&mut self) -> (r: DBResult<()>)
        requires
            old(self).valid(),
        ensures
            final(self).valid(),
            match r {
                Ok(_) => {
                    &&& !clashes(old(self).accounts(), 2_000_042, "sadroeck"@)
                    &&& final(self).accounts().dom() == old(self).accounts().dom().insert(
                        2_000_042,
                    )
                    &&& forall|id: AccountId|
                        id != 2_000_042 && #[trigger] old(self).accounts().contains_key(id)
                            ==> final(self).accounts()[id] == old(self).accounts()[id]
                    &&& is_fixture(final(self).accounts()[2_000_042])
                },
                Err(e) => {
                    &&& final(self).accounts() == old(self).accounts()
                    &&& e matches DBError::AccountAlreadyExists(other)
                    &&& holds_user(old(self).accounts(), other, 2_000_042, "sadroeck"@)
                },
            },
    ;

    /// Makes a new account under an id drawn at random, drawing again up to
    /// ten times while the id is taken. On `Ok` the store holds one account
    /// more, the one returned. On `Err` the store is as it was and the id in
    /// the error is one that was taken.
    fn create_account(&mut self) -> (r: DBResult<MmoAccount>)
        requires
            old(self).valid(),
        ensures
            final(self).valid(),
            match r {
                Ok(account) => {
                    &&& !old(self).accounts().contains_key(account.account_id)
                    &&& final(self).accounts() == old(self).accounts().insert(
                        account.account_id,
                        account,
                    )
                    &&& exists|now: Timestamp| account.is_fresh(account.account_id, now)
                },
                Err(e) => {
                    &&& final(self).accounts() == old(self).accounts()
                    &&& e matches DBError::AccountAlreadyExists(id)
                    &&& old(self).accounts().contains_key(id)
                },
            },
    ;

    /// Removes the account `account_id`, if there is one.
    fn delete_account(&mut self, account_id: AccountId) -> (r: DBResult<()>)
        requires
            old(self).valid(),
        ensures
            final(self).valid(),
            r is Ok,
            final(self).accounts() == old(self).accounts().remove(account_id),
    ;

    /// The account `account_id`, or `NoSuchAccount`.
    fn get_account_by_id(&self, account_id: AccountId) -> (r: DBResult<MmoAccount>)
        requires
            self.valid(),
        ensures
            self.accounts().contains_key(account_id) ==> r == Ok::<MmoAccount, DBError>(
                self.accounts()[account_id],
            ),
            !self.accounts().contains_key(account_id) ==> r == Err::<MmoAccount, DBError>(
                DBError::NoSuchAccount(account_id),
            ),
    ;

    /// An account whose user name is `user_id`, or `NoSuchUser` if the store
    /// holds none. A user name that is not empty names one account at most,
    /// so that the account is then the only one that can come back.
    fn get_account_by_user(&self, user_id: &UserId) -> (r: DBResult<MmoAccount>)
        requires
            self.valid(),
        ensures
            found_by_user(self.accounts(), user_id@, r),
    ;

    /// Files `account` under its id, in place of the account that was there.
    /// Where no account was there the answer is `NoSuchAccount`; where the
    /// user name of `account` is not empty and belongs to another account,
    /// the answer is `AccountAlreadyExists` with the id of that account. In
    /// both cases the store is left as it was.
    fn save_account(&mut self, account: &MmoAccount) -> (r: DBResult<()>)
        requires
            old(self).valid(),
        ensures
            final(self).valid(),
            match r {
                Ok(_) => {
                    &&& old(self).accounts().contains_key(account.account_id)
                    &&& !clashes(old(self).accounts(), account.account_id, account.user_id@)
                    &&& final(self).accounts() == old(self).accounts().insert(
                        account.account_id,
                        *account,
                    )
                },
                Err(e) => {
                    &&& final(self).accounts() == old(self).accounts()
                    &&& !old(self).accounts().contains_key(account.account_id) ==> e
                        == DBError::NoSuchAccount(account.account_id)
                    &&& old(self).accounts().contains_key(account.account_id) ==> {
                        &&& clashes(old(self).accounts(), account.account_id, account.user_id@)
                        &&& e matches DBError::AccountAlreadyExists(other)
                        &&& holds_user(
                            old(self).accounts(),
                            other,
                            account.account_id,
                            account.user_id@,
                        )
                    }
                },
            },
    ;

    /// Allows the web token of `account_id` to be used. The store does not
    /// change.
    fn enable_webtoken(&mut self, account_id: AccountId) -> (r: DBResult<()>)
        requires
            old(self).valid(),
        ensures
            final(self).valid(),
            final(self).accounts() == old(self).accounts(),
            old(self).accounts().contains_key(account_id) ==> r is Ok,
            !old(self).accounts().contains_key(account_id) ==> r == Err::<(), DBError>(
                DBError::NoSuchAccount(account_id),
            ),
    ;

    /// Forbids the web token of `account_id` to be used. The store does not
    /// change.
    fn disable_webtoken(&mut self, account_id: AccountId) -> (r: DBResult<()>)
        requires
            old(self).valid(),
        ensures
            final(self).valid(),
            final(self).accounts() == old(self).accounts(),
            old(self).accounts().contains_key(account_id) ==> r is Ok,
            !old(self).accounts().contains_key(account_id) ==> r == Err::<(), DBError>(
                DBError::NoSuchAccount(account_id),
            ),
    ;

    /// Sets the web token of every account to zeros.
    fn remove_webtokens(&mut self) -> (r: DBResult<()>)
        requires
            old(self).valid(),
        ensures
            final(self).valid(),
            r is Ok,
            final(self).accounts().dom() == old(self).accounts().dom(),
            forall|id: AccountId| #[trigger]
                final(self).accounts().contains_key(id) ==> token_cleared(
                    old(self).accounts()[id],
                    final(self).accounts()[id],
                ),
    ;
}

} // verus!
