//! The in-memory character store.

use std::collections::HashMap;
use vstd::prelude::*;
use crate::account::db::AccountId;
use crate::character::db::{
    consistent, lemma_consistent_insert, lemma_consistent_remove,
    lemma_consistent_update, lemma_first_in_slot, roster_of, views, without, CharacterDB,
    CharacterId, DBError, DBResult, CREATE_RETRIES, FIRST_CHARACTER_ID,
};
use crate::character::{Character, CharacterView, MAX_CHARACTERS_PER_ACCOUNT};
use crate::random::random_u32;

verus! {

broadcast use vstd::std_specs::hash::group_hash_axioms;

/// Characters by id, and for each account the ids of its characters.
pub struct InMemoryCharacterDB {
    pub verbose: bool,
    pub characters: HashMap<CharacterId, Character>,
    pub accounts: HashMap<AccountId, Vec<CharacterId>>,
}

/// The views of the characters of a map.
pub open spec fn character_views(characters: Map<CharacterId, Character>) -> Map<
    CharacterId,
    CharacterView,
> {
    Map::new(|id: CharacterId| characters.contains_key(id), |id: CharacterId| characters[id]@)
}

/// The views of the lists of a map.
pub open spec fn roster_views(accounts: Map<AccountId, Vec<CharacterId>>) -> Map<
    AccountId,
    Seq<CharacterId>,
> {
    Map::new(|id: AccountId| accounts.contains_key(id), |id: AccountId| accounts[id]@)
}

/// A copy of a list of ids.
fn copy_ids(ids: &Vec<CharacterId>) -> (copy: Vec<CharacterId>)
    ensures
        copy@ == ids@,
{
    let mut copy: Vec<CharacterId> = Vec::new();
    let mut i: usize = 0;
    while i < ids.len()
        invariant
            i <= ids@.len(),
            copy@ == ids@.take(i as int),
        decreases ids@.len() - i,
    {
        copy.push(ids[i]);
        i = i + 1;
        assert(copy@ =~= ids@.take(i as int));
    }
    assert(ids@.take(ids@.len() as int) =~= ids@);
    copy
}

impl InMemoryCharacterDB {
    /// An empty store.
    pub fn new(verbose: bool) -> (r: DBResult<Self>)
        ensures
            r matches Ok(db) && db.valid() && db.characters() == Map::<
                CharacterId,
                CharacterView,
            >::empty() && db.roster() == Map::<AccountId, Seq<CharacterId>>::empty(),
    {
        let db = InMemoryCharacterDB {
            verbose,
            characters: HashMap::new(),
            accounts: HashMap::new(),
        };
        assert(db.characters() =~= Map::<CharacterId, CharacterView>::empty());
        assert(db.roster() =~= Map::<AccountId, Seq<CharacterId>>::empty());
        Ok(db)
    }

    /// The ids of the characters of `account_id`, in the order in which
    /// they were made.
    pub fn ids_of(&self, account_id: AccountId) -> (ids: Vec<CharacterId>)
        ensures
            ids@ == roster_of(self.roster(), account_id),
    {
        match self.accounts.get(&account_id) {
            Some(list) => copy_ids(list),
            None => Vec::new(),
        }
    }

    /// Makes a new character for `account_id` under the id `id`. An account
    /// that has twelve characters gets `TooManyCharacters`; otherwise an id
    /// that is taken gets `CharacterAlreadyExists`. The new character is
    /// [`CharacterView::initial`] and stands at the end of the account's
    /// roster.
    pub fn try_create(&mut self, account_id: AccountId, id: CharacterId) -> (r: DBResult<CharacterId>)
        requires
            old(self).valid(),
        ensures
            final(self).valid(),
            match r {
                Ok(made) => {
                    &&& made == id
                    &&& !old(self).characters().contains_key(id)
                    &&& roster_of(old(self).roster(), account_id).len()
                        < MAX_CHARACTERS_PER_ACCOUNT
                    &&& final(self).characters() == old(self).characters().insert(
                        id,
                        CharacterView::initial(id, account_id),
                    )
                    &&& final(self).roster() == old(self).roster().insert(
                        account_id,
                        roster_of(old(self).roster(), account_id).push(id),
                    )
                },
                Err(e) => {
                    &&& final(self).characters() == old(self).characters()
                    &&& final(self).roster() == old(self).roster()
                    &&& e == (if roster_of(old(self).roster(), account_id).len()
                        >= MAX_CHARACTERS_PER_ACCOUNT {
                        DBError::TooManyCharacters(account_id)
                    } else {
                        DBError::CharacterAlreadyExists(id)
                    })
                    &&& roster_of(old(self).roster(), account_id).len()
                        >= MAX_CHARACTERS_PER_ACCOUNT || old(self).characters().contains_key(id)
                },
            },
    {
        let mut ids = self.ids_of(account_id);
        if ids.len() >= MAX_CHARACTERS_PER_ACCOUNT {
            return Err(DBError::TooManyCharacters(account_id));
        }
        if self.characters.contains_key(&id) {
            return Err(DBError::CharacterAlreadyExists(id));
        }
        let character = Character::new(id, account_id);
        proof {
            lemma_consistent_insert(self.characters(), self.roster(), character@);
        }
        self.characters.insert(id, character);
        ids.push(id);
        self.accounts.insert(account_id, ids);
        assert(self.characters() =~= old(self).characters().insert(
            id,
            CharacterView::initial(id, account_id),
        ));
        assert(self.roster() =~= old(self).roster().insert(
            account_id,
            roster_of(old(self).roster(), account_id).push(id),
        ));
        Ok(id)
    }
}

impl CharacterDB for InMemoryCharacterDB {
    open spec fn characters(&self) -> Map<CharacterId, CharacterView> {
        character_views(self.characters@)
    }

    open spec fn roster(&self) -> Map<AccountId, Seq<CharacterId>> {
        roster_views(self.accounts@)
    }

    open spec fn valid(&self) -> bool {
        consistent(self.characters(), self.roster())
    }

    proof fn lemma_valid(&self) {
    }

    fn init(&mut self) -> (r: DBResult<()>) {
        Ok(())
    }

    fn create(&mut self, account_id: AccountId) -> (r: DBResult<CharacterId>) {
        let mut last: DBError = DBError::TooManyCharacters(account_id);
        let mut attempt: usize = 0;
        while attempt < CREATE_RETRIES
            invariant
                self.valid(),
                self.characters() == old(self).characters(),
                self.roster() == old(self).roster(),
                attempt <= CREATE_RETRIES,
                attempt == 0 ==> last == DBError::TooManyCharacters(account_id),
                attempt > 0 ==> roster_of(self.roster(), account_id).len()
                    < MAX_CHARACTERS_PER_ACCOUNT,
                attempt > 0 ==> (last matches DBError::CharacterAlreadyExists(id)
                    && self.characters().contains_key(id)),
            decreases CREATE_RETRIES - attempt,
        {
            let id = random_u32(FIRST_CHARACTER_ID, u32::MAX);
            match self.try_create(account_id, id) {
                Ok(made) => {
                    return Ok(made);
                },
                Err(e) => {
                    if let DBError::TooManyCharacters(_) = e {
                        return Err(e);
                    }
                    last = e;
                },
            }
            attempt = attempt + 1;
        }
        Err(last)
    }

    fn update(&mut self, character: &Character) -> (r: DBResult<()>) {
        let known = match self.characters.get(&character.id) {
            Some(stored) => stored.account_id == character.account_id,
            None => false,
        };
        if !known {
            return Err(DBError::NoSuchCharacter(character.id));
        }
        proof {
            lemma_consistent_update(self.characters(), self.roster(), character@);
        }
        self.characters.insert(character.id, character.clone());
        assert(self.characters() =~= old(self).characters().insert(character.id, character@));
        Ok(())
    }

    fn delete(&mut self, id: CharacterId) -> (r: DBResult<()>) {
        let account_id = match self.characters.get(&id) {
            Some(stored) => stored.account_id,
            None => {
                assert(self.characters().remove(id) =~= self.characters());
                return Err(DBError::NoSuchCharacter(id));
            },
        };
        let mut ids = self.ids_of(account_id);
        let mut at: usize = 0;
        while at < ids.len() && ids[at] != id
            invariant
                at <= ids@.len(),
                forall|j: int| 0 <= j < at ==> ids@[j] != id,
            decreases ids@.len() - at,
        {
            at = at + 1;
        }
        proof {
            assert(self.characters().contains_key(id));
            assert(roster_of(self.roster(), account_id).contains(id));
            lemma_consistent_remove(self.characters(), self.roster(), id, at as int);
        }
        ids.remove(at);
        self.characters.remove(&id);
        self.accounts.insert(account_id, ids);
        assert(self.characters() =~= old(self).characters().remove(id));
        assert(self.roster() =~= old(self).roster().insert(
            account_id,
            without(roster_of(old(self).roster(), account_id), id),
        ));
        Ok(())
    }

    fn get_by_account_id(&self, id: AccountId) -> (r: DBResult<Vec<Character>>) {
        let ids = self.ids_of(id);
        let mut list: Vec<Character> = Vec::new();
        let mut i: usize = 0;
        while i < ids.len()
            invariant
                self.valid(),
                ids@ == roster_of(self.roster(), id),
                i <= ids@.len(),
                list@.len() == i,
                forall|j: int| 0 <= j < i ==> (#[trigger] list@[j])@ == self.characters()[ids@[j]],
            decreases ids@.len() - i,
        {
            assert(self.characters().contains_key(roster_of(self.roster(), id)[i as int]));
            match self.characters.get(&ids[i]) {
                Some(character) => {
                    list.push(character.clone());
                },
                None => {},
            }
            i = i + 1;
        }
        assert(views(list@) =~= roster_of(self.roster(), id).map_values(
            |c: CharacterId| self.characters()[c],
        ));
        Ok(list)
    }

    fn get_by_id(&self, id: CharacterId) -> (r: DBResult<Character>) {
        match self.characters.get(&id) {
            Some(character) => Ok(character.clone()),
            None => Err(DBError::NoSuchCharacter(id)),
        }
    }

    fn get_by_slot(&self, account_id: AccountId, slot: u8) -> (r: DBResult<Character>) {
        let ids = self.ids_of(account_id);
        let mut i: usize = 0;
        while i < ids.len()
            invariant
                self.valid(),
                ids@ == roster_of(self.roster(), account_id),
                i <= ids@.len(),
                forall|j: int|
                    0 <= j < i ==> !(self.characters().contains_key(#[trigger] ids@[j])
                        && self.characters()[ids@[j]].slot == slot as u16),
            decreases ids@.len() - i,
        {
            assert(self.characters().contains_key(roster_of(self.roster(), account_id)[i as int]));
            match self.characters.get(&ids[i]) {
                Some(character) => {
                    if character.slot == slot as u16 {
                        proof {
                            lemma_first_in_slot(self.characters(), ids@, slot as u16, i as int);
                        }
                        return Ok(character.clone());
                    }
                },
                None => {},
            }
            i = i + 1;
        }
        proof {
            lemma_first_in_slot(self.characters(), ids@, slot as u16, i as int);
        }
        Err(DBError::NoSuchSlot(slot))
    }
}

} // verus!
