//! The in-memory account store.

use std::collections::HashMap;
use vstd::prelude::*;
use vstd::string::*;
use crate::account::db::{
    clashes, has_user, holds_user, is_fixture, is_fixture_at, keyed_by_id,
    lemma_insert_keeps_unique, lemma_own_name_is_free, token_cleared, unique_users, AccountDB,
    AccountId, DBError, DBResult, UserId, CREATE_RETRIES,
};
use crate::account::mmo_account::{MmoAccount, Password};
use crate::clock::{current_time, Timestamp};
use crate::random::random_u32;

verus! {

broadcast use vstd::std_specs::hash::group_hash_axioms;

/// Accounts by id, with the ids in the order in which they came in, so that
/// a search by user name walks the accounts in a fixed order.
pub struct InMemoryAccountDB {
    pub verbose: bool,
    pub accounts: HashMap<AccountId, MmoAccount>,
    pub order: Vec<AccountId>,
}

/// Position of the first id of `order` whose account has the user name
/// `user`, or the length of `order` if there is none.
pub open spec fn first_with_user(
    accounts: Map<AccountId, MmoAccount>,
    order: Seq<AccountId>,
    user: Seq<char>,
) -> int
    decreases order.len(),
{
    if order.len() == 0 {
        0
    } else if accounts.contains_key(order[0]) && accounts[order[0]].user_id@ == user {
        0
    } else {
        1 + first_with_user(accounts, order.subrange(1, order.len() as int), user)
    }
}

/// The position that passes no account of that user name and stops at one
/// is `first_with_user`.
pub proof fn lemma_first_with_user(
    accounts: Map<AccountId, MmoAccount>,
    order: Seq<AccountId>,
    user: Seq<char>,
    i: int,
)
    requires
        0 <= i <= order.len(),
        forall|j: int|
            0 <= j < i ==> !(accounts.contains_key(#[trigger] order[j]) && accounts[order[j]].user_id@
                == user),
        i < order.len() ==> accounts.contains_key(order[i]) && accounts[order[i]].user_id@ == user,
    ensures
        first_with_user(accounts, order, user) == i,
    decreases order.len(),
{
    if order.len() == 0 {
    } else if accounts.contains_key(order[0]) && accounts[order[0]].user_id@ == user {
    } else {
        let tail = order.subrange(1, order.len() as int);
        assert forall|j: int| 0 <= j < i - 1 implies !(accounts.contains_key(#[trigger] tail[j])
            && accounts[tail[j]].user_id@ == user) by {
            assert(tail[j] == order[j + 1]);
        }
        if i - 1 < tail.len() {
            assert(tail[i - 1] == order[i]);
        }
        lemma_first_with_user(accounts, tail, user, i - 1);
    }
}

/// `order` lists the members of `ids`, each once.
pub open spec fn tracks(order: Seq<AccountId>, ids: Set<AccountId>) -> bool {
    &&& order.no_duplicates()
    &&& forall|id: AccountId| ids.contains(id) <==> order.contains(id)
}

/// A list that gets a new member at its end lists the set with that member.
pub proof fn lemma_tracks_push(order: Seq<AccountId>, ids: Set<AccountId>, key: AccountId)
    requires
        tracks(order, ids),
        !ids.contains(key),
    ensures
        tracks(order.push(key), ids.insert(key)),
{
    let after = order.push(key);
    assert(!order.contains(key));
    assert forall|id: AccountId| ids.insert(key).contains(id) <==> after.contains(id) by {
        if id == key {
            assert(after[order.len() as int] == key);
        } else {
            if ids.contains(id) {
                assert(order.contains(id));
                let j = choose|j: int| 0 <= j < order.len() && order[j] == id;
                assert(after[j] == id);
            }
            if after.contains(id) {
                let j = choose|j: int| 0 <= j < after.len() && after[j] == id;
                assert(order[j] == id);
            }
        }
    }
}

/// A list that loses the member at position `at` lists the set without it.
pub proof fn lemma_tracks_remove(order: Seq<AccountId>, ids: Set<AccountId>, at: int)
    requires
        tracks(order, ids),
        0 <= at < order.len(),
    ensures
        tracks(order.remove(at), ids.remove(order[at])),
{
    let after = order.remove(at);
    let key = order[at];
    assert forall|id: AccountId| ids.remove(key).contains(id) <==> after.contains(id) by {
        if after.contains(id) {
            let j = choose|j: int| 0 <= j < after.len() && after[j] == id;
            let x = if j < at { j } else { j + 1 };
            assert(order[x] == id);
            assert(order.contains(id));
        }
        if ids.remove(key).contains(id) {
            assert(order.contains(id));
            let x = choose|x: int| 0 <= x < order.len() && order[x] == id;
            let j = if x < at { x } else { x - 1 };
            assert(after[j] == id);
        }
    }
}

/// What a list does not name is not in the set.
pub proof fn lemma_tracks_absent(order: Seq<AccountId>, ids: Set<AccountId>, key: AccountId)
    requires
        tracks(order, ids),
        forall|j: int| 0 <= j < order.len() ==> order[j] != key,
    ensures
        !ids.contains(key),
        ids.remove(key) == ids,
{
    if ids.contains(key) {
        assert(order.contains(key));
    }
    assert(ids.remove(key) =~= ids);
}

/// Every member of the set stands at some position of the list.
pub proof fn lemma_tracks_position(order: Seq<AccountId>, ids: Set<AccountId>, key: AccountId) -> (at:
    int)
    requires
        tracks(order, ids),
        ids.contains(key),
    ensures
        0 <= at < order.len(),
        order[at] == key,
{
    assert(order.contains(key));
    choose|j: int| 0 <= j < order.len() && order[j] == key
}

impl InMemoryAccountDB {
    /// The ids in the order in which their accounts came in.
    pub open spec fn ids(&self) -> Seq<AccountId> {
        self.order@
    }

    /// An empty store.
    pub fn empty(verbose: bool) -> (db: Self)
        ensures
            db.valid(),
            db.accounts() == Map::<AccountId, MmoAccount>::empty(),
            db.verbose == verbose,
    {
        InMemoryAccountDB { verbose, accounts: HashMap::new(), order: Vec::new() }
    }

    /// A store that holds the development account and nothing else.
    pub fn new(verbose: bool) -> (r: DBResult<Self>)
        ensures
            r matches Ok(db) && db.valid() && db.accounts().dom() == set![2_000_042u32]
                && is_fixture(db.accounts()[2_000_042]),
    {
        let mut db = InMemoryAccountDB::empty(verbose);
        match db.init() {
            Ok(()) => {
                assert(db.accounts().dom() =~= set![2_000_042u32]);
                Ok(db)
            },
            Err(e) => Err(e),
        }
    }

    /// Files a new account under `account_id`, made at time `now`, unless
    /// the id is taken.
    pub fn try_create(&mut self, account_id: AccountId, now: Timestamp) -> (r: DBResult<MmoAccount>)
        requires
            old(self).valid(),
        ensures
            final(self).valid(),
            match r {
                Ok(account) => {
                    &&& !old(self).accounts().contains_key(account_id)
                    &&& account.is_fresh(account_id, now)
                    &&& final(self).accounts() == old(self).accounts().insert(account_id, account)
                    &&& final(self).ids() == old(self).ids().push(account_id)
                },
                Err(e) => {
                    &&& old(self).accounts().contains_key(account_id)
                    &&& e == DBError::AccountAlreadyExists(account_id)
                    &&& final(self).accounts() == old(self).accounts()
                    &&& final(self).ids() == old(self).ids()
                },
            },
    {
        if self.accounts.contains_key(&account_id) {
            return Err(DBError::AccountAlreadyExists(account_id));
        }
        let account = MmoAccount::new_at(account_id, now);
        self.accounts.insert(account_id, account.clone());
        self.order.push(account_id);
        proof {
            lemma_tracks_push(old(self).order@, old(self).accounts@.dom(), account_id);
            assert(self.accounts@.dom() =~= old(self).accounts@.dom().insert(account_id));
            lemma_insert_keeps_unique(old(self).accounts@, account);
        }
        Ok(account)
    }

    /// Position of `account_id` in the list of ids, or the list's length if
    /// it is not there.
    pub fn position_of(&self, account_id: AccountId) -> (at: usize)
        ensures
            at <= self.ids().len(),
            forall|j: int| 0 <= j < at ==> self.ids()[j] != account_id,
            at < self.ids().len() ==> self.ids()[at as int] == account_id,
    {
        let mut i: usize = 0;
        while i < self.order.len() && self.order[i] != account_id
            invariant
                i <= self.order@.len(),
                forall|j: int| 0 <= j < i ==> self.order@[j] != account_id,
            decreases self.order@.len() - i,
        {
            i = i + 1;
        }
        i
    }

    /// An account other than `except` whose user name is `user_id`, if there
    /// is one: the first in the order in which the accounts came in.
    pub fn find_other_user(&self, user_id: &UserId, except: AccountId) -> (r: Option<AccountId>)
        requires
            self.valid(),
        ensures
            r matches Some(other) ==> holds_user(self.accounts(), other, except, user_id@),
            r is None ==> forall|other: AccountId|
                !#[trigger] holds_user(self.accounts(), other, except, user_id@),
    {
        let mut i: usize = 0;
        while i < self.order.len()
            invariant
                self.valid(),
                i <= self.order@.len(),
                forall|j: int|
                    0 <= j < i ==> !holds_user(
                        self.accounts@,
                        #[trigger] self.order@[j],
                        except,
                        user_id@,
                    ),
            decreases self.order@.len() - i,
        {
            let id = self.order[i];
            if id != except {
                match self.accounts.get(&id) {
                    Some(account) => {
                        if account.user_id == *user_id {
                            return Some(id);
                        }
                    },
                    None => {},
                }
            }
            i = i + 1;
        }
        proof {
            assert forall|other: AccountId|
                !#[trigger] holds_user(self.accounts(), other, except, user_id@) by {
                if self.accounts@.contains_key(other) {
                    let j = lemma_tracks_position(self.order@, self.accounts@.dom(), other);
                    assert(!holds_user(self.accounts@, self.order@[j], except, user_id@));
                }
            }
        }
        None
    }

    /// The account that stands in the way of `account_id` taking the user
    /// name `user_id`, if one does: see [`clashes`].
    pub fn clash_of(&self, account_id: AccountId, user_id: &UserId) -> (r: Option<AccountId>)
        requires
            self.valid(),
        ensures
            r is Some <==> clashes(self.accounts(), account_id, user_id@),
            r matches Some(other) ==> holds_user(self.accounts(), other, account_id, user_id@),
    {
        if user_id.as_str().is_empty() {
            None
        } else {
            self.find_other_user(user_id, account_id)
        }
    }

    /// The first account, in the order in which the accounts came in, whose
    /// user name is `user_id`.
    pub fn find_user(&self, user_id: &UserId) -> (r: Option<MmoAccount>)
        requires
            self.valid(),
        ensures
            ({
                let at = first_with_user(self.accounts(), self.ids(), user_id@);
                &&& 0 <= at <= self.ids().len()
                &&& at < self.ids().len() ==> r == Some(self.accounts()[self.ids()[at]])
                &&& at == self.ids().len() ==> r is None && !has_user(self.accounts(), user_id@)
            }),
    {
        let mut i: usize = 0;
        while i < self.order.len()
            invariant
                self.valid(),
                i <= self.order@.len(),
                forall|j: int|
                    0 <= j < i ==> !(self.accounts@.contains_key(#[trigger] self.order@[j])
                        && self.accounts@[self.order@[j]].user_id@ == user_id@),
            decreases self.order@.len() - i,
        {
            let id = self.order[i];
            match self.accounts.get(&id) {
                Some(account) => {
                    if account.user_id == *user_id {
                        proof {
                            lemma_first_with_user(self.accounts@, self.order@, user_id@, i as int);
                        }
                        return Some(account.clone());
                    }
                },
                None => {},
            }
            i = i + 1;
        }
        proof {
            lemma_first_with_user(self.accounts@, self.order@, user_id@, i as int);
            if has_user(self.accounts(), user_id@) {
                let id = choose|id: AccountId| #[trigger]
                    self.accounts@.contains_key(id) && self.accounts@[id].user_id@ == user_id@;
                let j = lemma_tracks_position(self.order@, self.accounts@.dom(), id);
                assert(self.accounts@.contains_key(self.order@[j]));
            }
        }
        None
    }
}

impl AccountDB for InMemoryAccountDB {
    open spec fn accounts(&self) -> Map<AccountId, MmoAccount> {
        self.accounts@
    }

    open spec fn valid(&self) -> bool {
        &&& keyed_by_id(self.accounts@)
        &&& unique_users(self.accounts@)
        &&& tracks(self.order@, self.accounts@.dom())
    }

    proof fn lemma_valid(&self) {
    }

    fn init(&mut self) -> (r: DBResult<()>) {
        let now = current_time();
        let user = String::from_str("sadroeck");
        match self.clash_of(2_000_042, &user) {
            Some(other) => {
                return Err(DBError::AccountAlreadyExists(other));
            },
            None => {},
        }
        let mut account = MmoAccount::new_at(2_000_042, now);
        account.user_id = user;
        account.password = Password::Cleartext(String::from_str("olasenor"));
        assert(is_fixture_at(account, now));
        let known = self.accounts.contains_key(&2_000_042);
        proof {
            lemma_insert_keeps_unique(self.accounts@, account);
        }
        self.accounts.insert(2_000_042, account);
        if !known {
            self.order.push(2_000_042);
        }
        proof {
            assert(self.accounts@.dom() =~= old(self).accounts@.dom().insert(2_000_042));
            if known {
                assert(self.accounts@.dom() =~= old(self).accounts@.dom());
            } else {
                lemma_tracks_push(old(self).order@, old(self).accounts@.dom(), 2_000_042);
            }
        }
        Ok(())
    }

    fn create_account(&mut self) -> (r: DBResult<MmoAccount>) {
        let now = current_time();
        let mut last: AccountId = 0;
        let mut attempt: usize = 0;
        while attempt < CREATE_RETRIES
            invariant
                self.valid(),
                self.accounts@ == old(self).accounts@,
                attempt <= CREATE_RETRIES,
                attempt > 0 ==> self.accounts@.contains_key(last),
            decreases CREATE_RETRIES - attempt,
        {
            let account_id = random_u32(0, u32::MAX);
            match self.try_create(account_id, now) {
                Ok(account) => {
                    return Ok(account);
                },
                Err(_) => {
                    last = account_id;
                },
            }
            attempt = attempt + 1;
        }
        Err(DBError::AccountAlreadyExists(last))
    }

    fn delete_account(&mut self, account_id: AccountId) -> (r: DBResult<()>) {
        let i = self.position_of(account_id);
        self.accounts.remove(&account_id);
        if i < self.order.len() {
            self.order.remove(i);
        }
        proof {
            let before = old(self).order@;
            if i < before.len() {
                lemma_tracks_remove(before, old(self).accounts@.dom(), i as int);
                assert(self.order@ =~= before.remove(i as int));
                assert(self.accounts@.dom() =~= old(self).accounts@.dom().remove(account_id));
            } else {
                lemma_tracks_absent(before, old(self).accounts@.dom(), account_id);
                assert(self.accounts@.dom() =~= old(self).accounts@.dom());
            }
            assert(self.accounts@ =~= old(self).accounts@.remove(account_id));
        }
        Ok(())
    }

    fn get_account_by_id(&self, account_id: AccountId) -> (r: DBResult<MmoAccount>) {
        match self.accounts.get(&account_id) {
            Some(account) => Ok(account.clone()),
            None => Err(DBError::NoSuchAccount(account_id)),
        }
    }

    fn get_account_by_user(&self, user_id: &UserId) -> (r: DBResult<MmoAccount>)
        ensures
            r matches Ok(account) ==> account == self.accounts()[self.ids()[first_with_user(
                self.accounts(),
                self.ids(),
                user_id@,
            )]],
    {
        match self.find_user(user_id) {
            Some(account) => {
                proof {
                    lemma_first_with_user_found(self.accounts(), self.ids(), user_id@);
                }
                Ok(account)
            },
            None => Err(DBError::NoSuchUser(user_id.clone())),
        }
    }

    fn save_account(&mut self, account: &MmoAccount) -> (r: DBResult<()>) {
        if !self.accounts.contains_key(&account.account_id) {
            return Err(DBError::NoSuchAccount(account.account_id));
        }
        match self.clash_of(account.account_id, &account.user_id) {
            Some(other) => {
                return Err(DBError::AccountAlreadyExists(other));
            },
            None => {},
        }
        proof {
            lemma_insert_keeps_unique(self.accounts@, *account);
        }
        self.accounts.insert(account.account_id, account.clone());
        assert(self.accounts@.dom() =~= old(self).accounts@.dom());
        Ok(())
    }

    fn enable_webtoken(&mut self, account_id: AccountId) -> (r: DBResult<()>) {
        if self.accounts.contains_key(&account_id) {
            Ok(())
        } else {
            Err(DBError::NoSuchAccount(account_id))
        }
    }

    fn disable_webtoken(&mut self, account_id: AccountId) -> (r: DBResult<()>) {
        if self.accounts.contains_key(&account_id) {
            Ok(())
        } else {
            Err(DBError::NoSuchAccount(account_id))
        }
    }

    fn remove_webtokens(&mut self) -> (r: DBResult<()>) {
        let mut i: usize = 0;
        while i < self.order.len()
            invariant
                self.valid(),
                old(self).valid(),
                i <= self.order@.len(),
                self.order@ == old(self).order@,
                self.accounts@.dom() == old(self).accounts@.dom(),
                forall|j: int|
                    0 <= j < i ==> token_cleared(
                        old(self).accounts@[#[trigger] self.order@[j]],
                        self.accounts@[self.order@[j]],
                    ),
                forall|j: int|
                    i <= j < self.order@.len() ==> self.accounts@[#[trigger] self.order@[j]]
                        == old(self).accounts@[self.order@[j]],
            decreases self.order@.len() - i,
        {
            let id = self.order[i];
            let cleared = match self.accounts.get(&id) {
                Some(account) => {
                    let mut copy = account.clone();
                    copy.web_auth_token = [0u8; 16];
                    assert(copy.web_auth_token@ =~= Seq::new(16, |i: int| 0u8));
                    proof {
                        lemma_own_name_is_free(self.accounts@, id);
                        lemma_insert_keeps_unique(self.accounts@, copy);
                    }
                    Some(copy)
                },
                None => None,
            };
            match cleared {
                Some(copy) => {
                    self.accounts.insert(id, copy);
                    assert(self.accounts@.dom() =~= old(self).accounts@.dom());
                },
                None => {},
            }
            i = i + 1;
        }
        proof {
            assert forall|id: AccountId| #[trigger]
                self.accounts@.contains_key(id) implies token_cleared(
                old(self).accounts@[id],
                self.accounts@[id],
            ) by {
                let j = lemma_tracks_position(self.order@, self.accounts@.dom(), id);
                assert(token_cleared(
                    old(self).accounts@[self.order@[j]],
                    self.accounts@[self.order@[j]],
                ));
            }
        }
        Ok(())
    }
}

/// Where a user name is found, the account stands in the store under an id
/// of the list, and it has that user name.
pub proof fn lemma_first_with_user_found(
    accounts: Map<AccountId, MmoAccount>,
    order: Seq<AccountId>,
    user: Seq<char>,
)
    ensures
        ({
            let at = first_with_user(accounts, order, user);
            &&& 0 <= at <= order.len()
            &&& at < order.len() ==> accounts.contains_key(order[at]) && accounts[order[at]].user_id@
                == user
        }),
    decreases order.len(),
{
    if order.len() == 0 {
    } else if accounts.contains_key(order[0]) && accounts[order[0]].user_id@ == user {
    } else {
        let tail = order.subrange(1, order.len() as int);
        lemma_first_with_user_found(accounts, tail, user);
        let at = first_with_user(accounts, tail, user);
        if at < tail.len() {
            assert(tail[at] == order[at + 1]);
        }
    }
}

} // verus!
