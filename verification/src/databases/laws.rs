//! What holds of the stores in every state.

use vstd::prelude::*;
use crate::account::db::{
    found_by_user, keyed_by_id, unique_users, AccountDB, AccountId, DBError, DBResult,
};
use crate::account::mmo_account::MmoAccount;
use crate::character::db::{consistent, roster_of, CharacterDB, CharacterId};
use crate::character::request::{AccountInfo, RequestView};
use crate::character::server::CharacterServer;
use crate::character::session::{handled, Reply, SessionState};
use crate::character::{CharacterView, MAX_CHARACTERS_PER_ACCOUNT};
use crate::clock::Timestamp;
use crate::databases::account::{
    first_with_user, lemma_first_with_user, lemma_tracks_position, InMemoryAccountDB,
};
use crate::databases::authentication::AuthenticatedSession;
use crate::databases::inventory::InventoryDB;

verus! {

/// Every account of a store stands under its own id, so that the lookup by
/// its id returns it; and where its user name is not empty, the search by
/// that name returns it too.
pub proof fn lemma_account_is_found<A: AccountDB>(
    db: A,
    id: AccountId,
    by_user: DBResult<MmoAccount>,
)
    requires
        db.valid(),
        db.accounts().contains_key(id),
        found_by_user(db.accounts(), db.accounts()[id].user_id@, by_user),
    ensures
        db.accounts()[id].account_id == id,
        db.accounts()[id].user_id@.len() > 0 ==> by_user == Ok::<MmoAccount, DBError>(
            db.accounts()[id],
        ),
{
    db.lemma_valid();
    lemma_search_finds_the_account(db.accounts(), id, by_user);
}

/// In a store of unique user names, the search by a user name that is not
/// empty returns the account that has it.
pub proof fn lemma_search_finds_the_account(
    accounts: Map<AccountId, MmoAccount>,
    id: AccountId,
    by_user: DBResult<MmoAccount>,
)
    requires
        keyed_by_id(accounts),
        unique_users(accounts),
        accounts.contains_key(id),
        found_by_user(accounts, accounts[id].user_id@, by_user),
    ensures
        accounts[id].user_id@.len() > 0 ==> by_user == Ok::<MmoAccount, DBError>(accounts[id]),
{
    if accounts[id].user_id@.len() > 0 {
        match by_user {
            Ok(account) => {
                if account.account_id != id {
                    assert(accounts[id].user_id@ != accounts[account.account_id].user_id@);
                }
            },
            Err(_) => {
                assert(accounts.contains_key(id) && accounts[id].user_id@ == accounts[id].user_id@);
            },
        }
    }
}

/// In the in-memory store, the search by a user name that is not empty
/// stops at the account that has it.
pub proof fn lemma_search_stops_at_the_account(db: InMemoryAccountDB, id: AccountId)
    requires
        db.valid(),
        db.accounts().contains_key(id),
        db.accounts()[id].user_id@.len() > 0,
    ensures
        ({
            let at = first_with_user(db.accounts(), db.ids(), db.accounts()[id].user_id@);
            0 <= at < db.ids().len() && db.ids()[at] == id
        }),
{
    let accounts = db.accounts();
    let order = db.ids();
    let user = accounts[id].user_id@;
    let at = lemma_tracks_position(order, accounts.dom(), id);
    assert forall|j: int| 0 <= j < at implies !(accounts.contains_key(#[trigger] order[j])
        && accounts[order[j]].user_id@ == user) by {
        if accounts.contains_key(order[j]) {
            assert(order[j] != order[at]);
            assert(accounts[id].user_id@ != accounts[order[j]].user_id@);
        }
    }
    lemma_first_with_user(accounts, order, user, at);
}

/// Every character of the store stands under its own id and is one of the
/// characters of its account.
pub proof fn lemma_character_is_listed(
    characters: Map<CharacterId, CharacterView>,
    roster: Map<AccountId, Seq<CharacterId>>,
    id: CharacterId,
)
    requires
        consistent(characters, roster),
        characters.contains_key(id),
    ensures
        characters[id].id == id,
        roster_of(roster, characters[id].account_id).contains(id),
        roster_of(roster, characters[id].account_id).map_values(
            |c: CharacterId| characters[c],
        ).contains(characters[id]),
{
    let ids = roster_of(roster, characters[id].account_id);
    assert(ids.contains(id));
    let j = choose|j: int| 0 <= j < ids.len() && ids[j] == id;
    let list = ids.map_values(|c: CharacterId| characters[c]);
    assert(list[j] == characters[id]);
}

/// No account has more than twelve characters, and every character that an
/// account's roster names is a character of that account.
pub proof fn lemma_roster_is_bounded(
    characters: Map<CharacterId, CharacterView>,
    roster: Map<AccountId, Seq<CharacterId>>,
    account_id: AccountId,
)
    requires
        consistent(characters, roster),
    ensures
        roster_of(roster, account_id).len() <= MAX_CHARACTERS_PER_ACCOUNT,
        roster_of(roster, account_id).map_values(|c: CharacterId| characters[c]).len()
            <= MAX_CHARACTERS_PER_ACCOUNT,
        forall|j: int|
            0 <= j < roster_of(roster, account_id).len() ==> characters[#[trigger] roster_of(
                roster,
                account_id,
            )[j]].account_id == account_id,
{
    assert(roster_of(roster, account_id).no_duplicates());
}

/// A ticket is good once: the table from which it was taken admits it no
/// more, at any time.
pub proof fn lemma_ticket_is_good_once(
    tickets: Map<AccountId, AuthenticatedSession>,
    info: AccountInfo,
    later: Timestamp,
)
    ensures
        !(tickets.remove(info.account_id).contains_key(info.account_id) && tickets.remove(
            info.account_id,
        )[info.account_id].admits(info, later)),
{
}

/// A second connection that presents a ticket which a first connection has
/// used is rejected and closed, whatever happened in between to other
/// accounts' tickets.
pub proof fn lemma_second_connect_is_rejected<C: CharacterDB, I: InventoryDB>(
    first: CharacterServer<C, I>,
    second: CharacterServer<C, I>,
    third: CharacterServer<C, I>,
    fourth: CharacterServer<C, I>,
    info: AccountInfo,
    now: Timestamp,
    later: Timestamp,
    seed: u32,
    other_seed: u32,
    one: SessionState,
    other: SessionState,
    reply: Reply,
    other_reply: Reply,
)
    requires
        handled(
            SessionState::Unauthenticated,
            one,
            first,
            second,
            RequestView::ConnectClient(info),
            now,
            seed,
            reply,
        ),
        one is Idle,
        !third.authentication_db.tickets().contains_key(info.account_id)
            || second.authentication_db.tickets().contains_key(info.account_id),
        handled(
            SessionState::Unauthenticated,
            other,
            third,
            fourth,
            RequestView::ConnectClient(info),
            later,
            other_seed,
            other_reply,
        ),
    ensures
        other == SessionState::Closed,
        other_reply.is_rejection(true),
{
}

} // verus!
