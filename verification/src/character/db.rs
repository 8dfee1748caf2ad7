//! Identifiers, errors and the interface of the character store.

use vstd::prelude::*;
use crate::account::db::AccountId;
use crate::character::{Character, CharacterView, MAX_CHARACTERS_PER_ACCOUNT};

verus! {

/// The number that a character is known by.
pub type CharacterId = u32;

/// Why an operation of the character store failed.
#[derive(Debug, Clone, Copy, PartialEq, Eq, Structural)]
pub enum DBError {
    NoSuchCharacter(CharacterId),
    NoSuchSlot(u8),
    /// Every id that was drawn for a new character was taken.
    CharacterAlreadyExists(CharacterId),
    /// The account has as many characters as it may have.
    TooManyCharacters(AccountId),
}

/// What an operation of the character store answers.
pub type DBResult<T> = Result<T, DBError>;

/// The smallest character id.
pub const FIRST_CHARACTER_ID: u32 = 2_000_000;

/// How often a new character id is drawn before giving up.
pub const CREATE_RETRIES: usize = 10;

/// The characters of an account, in the order in which they were made.
pub open spec fn roster_of(roster: Map<AccountId, Seq<CharacterId>>, account_id: AccountId) -> Seq<
    CharacterId,
> {
    if roster.contains_key(account_id) {
        roster[account_id]
    } else {
        Seq::<CharacterId>::empty()
    }
}

/// The two indexes of a character store agree: every character stands under
/// its own id and in the roster of its account; every roster names
/// characters of its account, each once, and at most twelve.
pub open spec fn consistent(
    characters: Map<CharacterId, CharacterView>,
    roster: Map<AccountId, Seq<CharacterId>>,
) -> bool {
    &&& forall|id: CharacterId| #[trigger]
        characters.contains_key(id) ==> characters[id].id == id && roster_of(
            roster,
            characters[id].account_id,
        ).contains(id)
    &&& forall|account_id: AccountId, j: int|
        0 <= j < roster_of(roster, account_id).len() ==> characters.contains_key(
            #[trigger] roster_of(roster, account_id)[j],
        ) && characters[roster_of(roster, account_id)[j]].account_id == account_id
    &&& forall|account_id: AccountId| #[trigger]
        roster_of(roster, account_id).no_duplicates() && roster_of(roster, account_id).len()
            <= MAX_CHARACTERS_PER_ACCOUNT
}

/// Position of the first character of `ids` that stands in slot `slot`, or
/// the length of `ids` if none does.
pub open spec fn first_in_slot(
    characters: Map<CharacterId, CharacterView>,
    ids: Seq<CharacterId>,
    slot: u16,
) -> int
    decreases ids.len(),
{
    if ids.len() == 0 {
        0
    } else if characters.contains_key(ids[0]) && characters[ids[0]].slot == slot {
        0
    } else {
        1 + first_in_slot(characters, ids.subrange(1, ids.len() as int), slot)
    }
}

/// The store holds a character of the id of `character`, for the same
/// account.
pub open spec fn same_owner(
    characters: Map<CharacterId, CharacterView>,
    character: CharacterView,
) -> bool {
    characters.contains_key(character.id) && characters[character.id].account_id
        == character.account_id
}

/// `ids` without `id`, where `ids` names `id` once.
pub open spec fn without(ids: Seq<CharacterId>, id: CharacterId) -> Seq<CharacterId> {
    ids.remove(ids.index_of(id))
}

/// A new character that enters a consistent store, at the end of its
/// account's roster, leaves the store consistent.
pub proof fn lemma_consistent_insert(
    characters: Map<CharacterId, CharacterView>,
    roster: Map<AccountId, Seq<CharacterId>>,
    view: CharacterView,
)
    requires
        consistent(characters, roster),
        !characters.contains_key(view.id),
        roster_of(roster, view.account_id).len() < MAX_CHARACTERS_PER_ACCOUNT,
    ensures
        consistent(
            characters.insert(view.id, view),
            roster.insert(view.account_id, roster_of(roster, view.account_id).push(view.id)),
        ),
{
    let id = view.id;
    let a = view.account_id;
    let before = roster_of(roster, a);
    let c2 = characters.insert(id, view);
    let r2 = roster.insert(a, before.push(id));
    assert forall|x: CharacterId| #[trigger] c2.contains_key(x) implies c2[x].id == x && roster_of(
        r2,
        c2[x].account_id,
    ).contains(x) by {
        if x == id {
            assert(roster_of(r2, a)[before.len() as int] == id);
        } else {
            assert(characters.contains_key(x));
            let acct = characters[x].account_id;
            let list = roster_of(roster, acct);
            assert(list.contains(x));
            let j = choose|j: int| 0 <= j < list.len() && list[j] == x;
            assert(roster_of(r2, acct)[j] == x);
        }
    }
    assert forall|account_id: AccountId, j: int|
        0 <= j < roster_of(r2, account_id).len() implies c2.contains_key(
        #[trigger] roster_of(r2, account_id)[j],
    ) && c2[roster_of(r2, account_id)[j]].account_id == account_id by {
        if account_id == a {
            if j < before.len() {
                assert(characters.contains_key(roster_of(roster, a)[j]));
            }
        } else {
            assert(characters.contains_key(roster_of(roster, account_id)[j]));
        }
    }
    assert forall|account_id: AccountId| #[trigger]
        roster_of(r2, account_id).no_duplicates() && roster_of(r2, account_id).len()
            <= MAX_CHARACTERS_PER_ACCOUNT by {
        assert(roster_of(roster, account_id).no_duplicates());
        if account_id == a {
            assert forall|i: int, j: int|
                0 <= i < j < before.push(id).len() implies before.push(id)[i] != before.push(
                id,
            )[j] by {
                if j == before.len() {
                    assert(characters.contains_key(roster_of(roster, a)[i]));
                }
            }
        }
    }
}

/// A character that is replaced by one of the same id and account leaves a
/// consistent store consistent.
pub proof fn lemma_consistent_update(
    characters: Map<CharacterId, CharacterView>,
    roster: Map<AccountId, Seq<CharacterId>>,
    view: CharacterView,
)
    requires
        consistent(characters, roster),
        characters.contains_key(view.id),
        characters[view.id].account_id == view.account_id,
    ensures
        consistent(characters.insert(view.id, view), roster),
{
    let c2 = characters.insert(view.id, view);
    assert forall|x: CharacterId| #[trigger] c2.contains_key(x) implies c2[x].id == x && roster_of(
        roster,
        c2[x].account_id,
    ).contains(x) by {
        assert(characters.contains_key(x));
    }
    assert forall|account_id: AccountId, j: int|
        0 <= j < roster_of(roster, account_id).len() implies c2.contains_key(
        #[trigger] roster_of(roster, account_id)[j],
    ) && c2[roster_of(roster, account_id)[j]].account_id == account_id by {
        assert(characters.contains_key(roster_of(roster, account_id)[j]));
    }
    assert forall|account_id: AccountId| #[trigger]
        roster_of(roster, account_id).no_duplicates() && roster_of(roster, account_id).len()
            <= MAX_CHARACTERS_PER_ACCOUNT by {
        assert(roster_of(roster, account_id).no_duplicates());
    }
}

/// A character that leaves a consistent store and its account's roster
/// leaves the store consistent.
pub proof fn lemma_consistent_remove(
    characters: Map<CharacterId, CharacterView>,
    roster: Map<AccountId, Seq<CharacterId>>,
    id: CharacterId,
    at: int,
)
    requires
        consistent(characters, roster),
        characters.contains_key(id),
        0 <= at < roster_of(roster, characters[id].account_id).len(),
        roster_of(roster, characters[id].account_id)[at] == id,
    ensures
        roster_of(roster, characters[id].account_id).index_of(id) == at,
        consistent(
            characters.remove(id),
            roster.insert(
                characters[id].account_id,
                without(roster_of(roster, characters[id].account_id), id),
            ),
        ),
{
    let a = characters[id].account_id;
    let before = roster_of(roster, a);
    assert(before.no_duplicates());
    assert(before.contains(id));
    let k = before.index_of(id);
    assert(0 <= k < before.len() && before[k] == id);
    assert(k == at);
    let after = before.remove(at);
    let c2 = characters.remove(id);
    let r2 = roster.insert(a, after);
    assert forall|x: CharacterId| #[trigger] c2.contains_key(x) implies c2[x].id == x && roster_of(
        r2,
        c2[x].account_id,
    ).contains(x) by {
        assert(characters.contains_key(x));
        let acct = characters[x].account_id;
        let list = roster_of(roster, acct);
        assert(list.contains(x));
        let j = choose|j: int| 0 <= j < list.len() && list[j] == x;
        if acct == a {
            let j2 = if j < at { j } else { j - 1 };
            assert(after[j2] == x);
        } else {
            assert(roster_of(r2, acct)[j] == x);
        }
    }
    assert forall|account_id: AccountId, j: int|
        0 <= j < roster_of(r2, account_id).len() implies c2.contains_key(
        #[trigger] roster_of(r2, account_id)[j],
    ) && c2[roster_of(r2, account_id)[j]].account_id == account_id by {
        if account_id == a {
            let j0 = if j < at { j } else { j + 1 };
            assert(after[j] == before[j0]);
            assert(characters.contains_key(roster_of(roster, a)[j0]));
        } else {
            let x = roster_of(roster, account_id)[j];
            assert(characters.contains_key(x));
            assert(characters[x].account_id == account_id);
        }
    }
    assert forall|account_id: AccountId| #[trigger]
        roster_of(r2, account_id).no_duplicates() && roster_of(r2, account_id).len()
            <= MAX_CHARACTERS_PER_ACCOUNT by {
        assert(roster_of(roster, account_id).no_duplicates());
        if account_id == a {
            assert forall|i: int, j: int| 0 <= i < j < after.len() implies after[i]
                != after[j] by {
                let i0 = if i < at { i } else { i + 1 };
                let j0 = if j < at { j } else { j + 1 };
                assert(after[i] == before[i0] && after[j] == before[j0]);
            }
        }
    }
}

/// The position that passes no character of the slot and stops at one is
/// `first_in_slot`.
pub proof fn lemma_first_in_slot(
    characters: Map<CharacterId, CharacterView>,
    ids: Seq<CharacterId>,
    slot: u16,
    i: int,
)
    requires
        0 <= i <= ids.len(),
        forall|j: int|
            0 <= j < i ==> !(characters.contains_key(#[trigger] ids[j]) && characters[ids[j]].slot
                == slot),
        i < ids.len() ==> characters.contains_key(ids[i]) && characters[ids[i]].slot == slot,
    ensures
        first_in_slot(characters, ids, slot) == i,
    decreases ids.len(),
{
    if ids.len() == 0 {
    } else if characters.contains_key(ids[0]) && characters[ids[0]].slot == slot {
    } else {
        let tail = ids.subrange(1, ids.len() as int);
        assert forall|j: int| 0 <= j < i - 1 implies !(characters.contains_key(#[trigger] tail[j])
            && characters[tail[j]].slot == slot) by {
            assert(tail[j] == ids[j + 1]);
        }
        if i - 1 < tail.len() {
            assert(tail[i - 1] == ids[i]);
        }
        lemma_first_in_slot(characters, tail, slot, i - 1);
    }
}

/// The views of a list of characters.
pub open spec fn views(list: Seq<Character>) -> Seq<CharacterView> {
    list.map_values(|c: Character| c@)
}

/// A store of characters. Its state is a map from character id to
/// character and, for each account, the list of its characters' ids.
pub trait CharacterDB {
    /// The characters that the store holds.
    spec fn characters(&self) -> Map<CharacterId, CharacterView>;

    /// For each account, the ids of its characters in the order in which
    /// they were made.
    spec fn roster(&self) -> Map<AccountId, Seq<CharacterId>>;

    /// The store's own invariant. It includes [`consistent`].
    spec fn valid(&self) -> bool;

    proof fn lemma_valid(&self)
        requires
            self.valid(),
        ensures
            consistent(self.characters(), self.roster()),
    ;

    /// Makes the store ready. It holds what it held before.
    fn init(&mut self) -> (r: DBResult<()>)
        requires
            old(self).valid(),
        ensures
            final(self).valid(),
            r is Ok,
            final(self).characters() == old(self).characters(),
            final(self).roster() == old(self).roster(),
    ;

    /// Makes a new character for `account_id` under an id of at least
    /// 2 000 000 drawn at random, drawing again up to ten times while the id
    /// is taken. An account that has twelve characters gets
    /// `TooManyCharacters`. On `Ok(id)` the store holds one character more,
    /// [`CharacterView::initial`], at the end of the account's roster. On
    /// `Err` the store is as it was.
    fn create(&mut self, account_id: AccountId) -> (r: DBResult<CharacterId>)
        requires
            old(self).valid(),
        ensures
            final(self).valid(),
            match r {
                Ok(id) => {
                    &&& id >= FIRST_CHARACTER_ID
                    &&& !old(self).characters().contains_key(id)
                    &&& roster_of(old(self).roster(), account_id).len()
                        < MAX_CHARACTERS_PER_ACCOUNT
                    &&& final(self).characters() == old(self).characters().insert(
                        id,
                        CharacterView::initial(id, account_id),
                    )
                    &&& final(self).roster() == old(self).roster().insert(
                        account_id,
                        roster_of(old(self).roster(), account_id).push(id),
                    )
                },
                Err(e) => {
                    &&& final(self).characters() == old(self).characters()
                    &&& final(self).roster() == old(self).roster()
                    &&& roster_of(old(self).roster(), account_id).len()
                        >= MAX_CHARACTERS_PER_ACCOUNT ==> e == DBError::TooManyCharacters(
                        account_id,
                    )
                    &&& roster_of(old(self).roster(), account_id).len()
                        < MAX_CHARACTERS_PER_ACCOUNT ==> (e matches DBError::CharacterAlreadyExists(
                        id,
                    ) && old(self).characters().contains_key(id))
                },
            },
    ;

    /// Replaces the character that stands under `character.id`. A character
    /// that the store does not hold, or holds for another account, is
    /// `NoSuchCharacter`, and the store is left as it was.
    fn update(&mut self, character: &Character) -> (r: DBResult<()>)
        requires
            old(self).valid(),
        ensures
            final(self).valid(),
            final(self).roster() == old(self).roster(),
            match r {
                Ok(_) => {
                    &&& same_owner(old(self).characters(), character@)
                    &&& final(self).characters() == old(self).characters().insert(
                        character.id,
                        character@,
                    )
                },
                Err(e) => {
                    &&& !same_owner(old(self).characters(), character@)
                    &&& e == DBError::NoSuchCharacter(character.id)
                    &&& final(self).characters() == old(self).characters()
                },
            },
    ;

    /// Removes the character `id` from the store and from its account's
    /// roster, or answers `NoSuchCharacter`.
    fn delete(&mut self, id: CharacterId) -> (r: DBResult<()>)
        requires
            old(self).valid(),
        ensures
            final(self).valid(),
            final(self).characters() == old(self).characters().remove(id),
            match r {
                Ok(_) => {
                    &&& old(self).characters().contains_key(id)
                    &&& final(self).roster() == old(self).roster().insert(
                        old(self).characters()[id].account_id,
                        without(
                            roster_of(old(self).roster(), old(self).characters()[id].account_id),
                            id,
                        ),
                    )
                },
                Err(e) => {
                    &&& !old(self).characters().contains_key(id)
                    &&& e == DBError::NoSuchCharacter(id)
                    &&& final(self).roster() == old(self).roster()
                },
            },
    ;

    /// The characters of account `id`, in the order of its roster.
    fn get_by_account_id(&self, id: AccountId) -> (r: DBResult<Vec<Character>>)
        requires
            self.valid(),
        ensures
            r matches Ok(list) && list@.len() == roster_of(self.roster(), id).len() && views(list@)
                == roster_of(self.roster(), id).map_values(|c: CharacterId| self.characters()[c]),
    ;

    /// The character `id`, or `NoSuchCharacter`.
    fn get_by_id(&self, id: CharacterId) -> (r: DBResult<Character>)
        requires
            self.valid(),
        ensures
            self.characters().contains_key(id) ==> (r matches Ok(character) && character@
                == self.characters()[id]),
            !self.characters().contains_key(id) ==> r == Err::<Character, DBError>(
                DBError::NoSuchCharacter(id),
            ),
    ;

    /// The first character of the roster of `account_id` that stands in
    /// slot `slot`, or `NoSuchSlot`.
    fn get_by_slot(&self, account_id: AccountId, slot: u8) -> (r: DBResult<Character>)
        requires
            self.valid(),
        ensures
            ({
                let ids = roster_of(self.roster(), account_id);
                let at = first_in_slot(self.characters(), ids, slot as u16);
                &&& 0 <= at <= ids.len()
                &&& at < ids.len() ==> (r matches Ok(character) && character@
                    == self.characters()[ids[at]] && character@.slot == slot
                    && character@.account_id == account_id)
                &&& at == ids.len() ==> r == Err::<Character, DBError>(DBError::NoSuchSlot(slot))
            }),
    ;
}

} // verus!
