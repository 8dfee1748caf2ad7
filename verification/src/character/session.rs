//! One connection to the character server: what state it is in and what
//! each request does to it and to the stores.

use vstd::prelude::*;
use crate::account::db::AccountId;
use crate::character::attributes::Class;
use crate::character::db::{
    first_in_slot, roster_of, views, CharacterDB, CharacterId, DBError as CharacterDBError,
    DBResult, FIRST_CHARACTER_ID,
};
use crate::character::request::{AccountInfo, NewCharacter, NewCharacterView, Request};
use crate::character::response::Response;
use crate::character::server::CharacterServer;
use crate::character::{Character, CharacterView, MAX_CHARACTERS_PER_ACCOUNT};
use crate::clock::{current_time, Timestamp};
use crate::databases::authentication::on_file;
use crate::databases::inventory::{Error as InventoryDBError, InventoryDB};
use crate::inventory::{copy_items, Inventory, InventoryView, Item};
use crate::pincode::{PincodeInfo, PincodeStatus};
use crate::random::random_u32;

verus! {

/// Why a character was not made.
#[derive(Debug, Clone, Copy, PartialEq, Eq, Structural)]
pub enum CharCreationError {
    InvalidSlot(u8),
    TooManyCharacters(u8),
    InvalidClass(Class),
    /// The name is empty.
    InvalidName,
    NoSuchAccount(AccountId),
    InventoryDB(InventoryDBError),
    CharacterDB(CharacterDBError),
}

/// Where a connection stands.
#[derive(Debug, Clone, Copy, PartialEq, Eq, Structural)]
pub enum SessionState {
    /// No ticket was presented yet.
    Unauthenticated,
    /// A ticket was taken: the client sees its characters.
    Idle(AccountInfo),
    /// A character was picked and handed off.
    CharacterPicked(AccountInfo),
    /// The connection is to be closed.
    Closed,
}

/// The state of one connection to the character server.
pub struct CharacterSession {
    pub state: SessionState,
}

/// What a request is answered with.
pub struct Reply {
    /// The responses to send, in this order.
    pub responses: Vec<Response>,
    /// The character to hand to its map server, if one was picked.
    pub handoff: Option<Character>,
    /// Whether the connection is to be closed once the responses are sent.
    pub close: bool,
}

impl Reply {
    /// The single response `Rejected`.
    pub open spec fn is_rejection(&self, close: bool) -> bool {
        &&& self.responses@.len() == 1
        &&& self.responses@[0] is Rejected
        &&& self.handoff is None
        &&& self.close == close
    }

    /// No response at all.
    pub open spec fn is_silent(&self, close: bool) -> bool {
        &&& self.responses@.len() == 0
        &&& self.handoff is None
        &&& self.close == close
    }

    fn rejection(close: bool) -> (reply: Reply)
        ensures
            reply.is_rejection(close),
    {
        let mut responses: Vec<Response> = Vec::new();
        responses.push(Response::Rejected);
        Reply { responses, handoff: None, close }
    }

    fn silent(close: bool) -> (reply: Reply)
        ensures
            reply.is_silent(close),
    {
        Reply { responses: Vec::new(), handoff: None, close }
    }
}

/// The items that a class starts with.
pub open spec fn starting_items<C: CharacterDB, I: InventoryDB>(
    server: CharacterServer<C, I>,
    class: Class,
) -> Seq<Item> {
    if class == Class::Summoner {
        server.starting_characters.doram.items@
    } else {
        server.starting_characters.novice.items@
    }
}

/// Why a new character is refused before anything is made, if it is: a
/// slot of 12 or more, an account that is full, a class other than novice
/// and summoner, an empty name, or a slot that is taken, in this order.
pub open spec fn refusal(
    characters: Map<CharacterId, CharacterView>,
    roster: Map<AccountId, Seq<CharacterId>>,
    account_id: AccountId,
    new_character: NewCharacterView,
) -> Option<CharCreationError> {
    let ids = roster_of(roster, account_id);
    if new_character.slot >= MAX_CHARACTERS_PER_ACCOUNT {
        Some(CharCreationError::InvalidSlot(new_character.slot))
    } else if ids.len() >= MAX_CHARACTERS_PER_ACCOUNT {
        Some(CharCreationError::TooManyCharacters(12))
    } else if new_character.class != Class::Novice && new_character.class != Class::Summoner {
        Some(CharCreationError::InvalidClass(new_character.class))
    } else if new_character.name.len() == 0 {
        Some(CharCreationError::InvalidName)
    } else if first_in_slot(characters, ids, new_character.slot as u16) < ids.len() {
        Some(CharCreationError::InvalidSlot(new_character.slot))
    } else {
        None
    }
}

/// The character that is made of a request, under the id `id`.
pub open spec fn created(
    id: CharacterId,
    account_id: AccountId,
    new_character: NewCharacterView,
) -> CharacterView {
    CharacterView {
        name: new_character.name,
        slot: new_character.slot as u16,
        stats: new_character.stats,
        appearance: new_character.appearance,
        class: new_character.class,
        sex: new_character.sex,
        ..CharacterView::initial(id, account_id)
    }
}

impl CharacterSession {
    /// The ticket that the connection was opened with, once it was.
    pub open spec fn account_info(&self) -> Option<AccountInfo> {
        match self.state {
            SessionState::Idle(info) => Some(info),
            SessionState::CharacterPicked(info) => Some(info),
            _ => None,
        }
    }

    /// The session of a connection that has presented no ticket yet.
    pub fn new() -> (session: Self)
        ensures
            session.state == SessionState::Unauthenticated,
    {
        CharacterSession { state: SessionState::Unauthenticated }
    }

    /// Takes the ticket that the client presents, at time `now`. The answer
    /// is yes if the connection had presented none before and the ticket is
    /// on file and still good; it is then taken off the file and kept by
    /// the session. Otherwise nothing changes.
    pub fn is_authenticated<C: CharacterDB, I: InventoryDB>(
        &mut self,
        server: &mut CharacterServer<C, I>,
        account_info: AccountInfo,
        now: Timestamp,
    ) -> (yes: bool)
        ensures
            yes == (old(self).state is Unauthenticated && on_file(
                old(server).authentication_db.tickets(),
                account_info,
                now,
            )),
            final(self).state == (if yes {
                SessionState::Idle(account_info)
            } else {
                old(self).state
            }),
            final(server).authentication_db.tickets() == (if yes {
                old(server).authentication_db.tickets().remove(account_info.account_id)
            } else {
                old(server).authentication_db.tickets()
            }),
            final(server).character_db == old(server).character_db,
            final(server).inventory_db == old(server).inventory_db,
            final(server).starting_characters == old(server).starting_characters,
    {
        match self.state {
            SessionState::Unauthenticated => {
                if server.authentication_db.check_if_authenticated(account_info, now) {
                    self.state = SessionState::Idle(account_info);
                    true
                } else {
                    false
                }
            },
            _ => false,
        }
    }

    /// The state of the pincode dialog for the session's account.
    pub fn get_pincode_info(&self, seed: u32) -> (r: DBResult<PincodeInfo>)
        requires
            self.account_info() is Some,
        ensures
            r == Ok::<PincodeInfo, CharacterDBError>(
                PincodeInfo {
                    status: PincodeStatus::Correct,
                    account_id: self.account_info()->0.account_id,
                    seed,
                },
            ),
    {
        let account_id = match self.state {
            SessionState::Idle(info) => info.account_id,
            SessionState::CharacterPicked(info) => info.account_id,
            _ => 0,
        };
        Ok(PincodeInfo { status: PincodeStatus::Correct, account_id, seed })
    }

    /// The characters of the session's account, in the order in which they
    /// were made.
    pub fn get_characters<C: CharacterDB, I: InventoryDB>(&self, server: &CharacterServer<C, I>) -> (r:
        DBResult<Vec<Character>>)
        requires
            self.account_info() is Some,
            server.valid(),
        ensures
            r matches Ok(list) && list@.len() <= MAX_CHARACTERS_PER_ACCOUNT && views(list@)
                == roster_of(
                server.character_db.roster(),
                self.account_info()->0.account_id,
            ).map_values(|c: CharacterId| server.character_db.characters()[c]),
    {
        let account_id = match self.state {
            SessionState::Idle(info) => info.account_id,
            SessionState::CharacterPicked(info) => info.account_id,
            _ => 0,
        };
        proof {
            server.character_db.lemma_valid();
            assert(roster_of(server.character_db.roster(), account_id).no_duplicates());
        }
        let r = server.character_db.get_by_account_id(account_id);
        proof {
            assert(r matches Ok(list) && views(list@).len() == list@.len());
        }
        r
    }

    /// The character of the session's account that stands in `slot`.
    pub fn select_character<C: CharacterDB, I: InventoryDB>(
        &self,
        server: &CharacterServer<C, I>,
        slot: u8,
    ) -> (r: DBResult<Character>)
        requires
            self.account_info() is Some,
            server.valid(),
        ensures
            ({
                let ids = roster_of(
                    server.character_db.roster(),
                    self.account_info()->0.account_id,
                );
                let at = first_in_slot(server.character_db.characters(), ids, slot as u16);
                &&& at < ids.len() ==> (r matches Ok(character) && character@
                    == server.character_db.characters()[ids[at]] && character@.slot == slot)
                &&& at >= ids.len() ==> r == Err::<Character, CharacterDBError>(
                    CharacterDBError::NoSuchSlot(slot),
                )
            }),
    {
        let account_id = match self.state {
            SessionState::Idle(info) => info.account_id,
            SessionState::CharacterPicked(info) => info.account_id,
            _ => 0,
        };
        server.character_db.get_by_slot(account_id, slot)
    }

    /// Makes a character for the session's account as the client asks.
    ///
    /// The request is refused, and nothing is made, for the reasons that
    /// [`refusal`] gives. Otherwise the character store draws an id; if it
    /// finds none that is free, its error is passed on and nothing is
    /// made. Otherwise the new character, [`created`], stands in the store
    /// at the end of the account's roster, and an inventory with the items
    /// that its class starts with is on file for it.
    pub fn create_character<C: CharacterDB, I: InventoryDB>(
        &self,
        server: &mut CharacterServer<C, I>,
        new_character: NewCharacter,
    ) -> (r: Result<Character, CharCreationError>)
        requires
            self.account_info() is Some,
            old(server).valid(),
        ensures
            final(server).valid(),
            final(server).authentication_db == old(server).authentication_db,
            final(server).starting_characters == old(server).starting_characters,
            character_created(
                *old(server),
                *final(server),
                self.account_info()->0.account_id,
                new_character@,
                r,
            ),
    {
        let account_id = match self.state {
            SessionState::Idle(info) => info.account_id,
            SessionState::CharacterPicked(info) => info.account_id,
            _ => 0,
        };
        let NewCharacter { name, slot, stats, appearance, class, sex } = new_character;
        if slot as usize >= MAX_CHARACTERS_PER_ACCOUNT {
            return Err(CharCreationError::InvalidSlot(slot));
        }
        let existing = match server.character_db.get_by_account_id(account_id) {
            Ok(list) => list,
            Err(_) => {
                return Err(CharCreationError::NoSuchAccount(account_id));
            },
        };
        proof {
            assert(views(existing@).len() == existing@.len());
        }
        if existing.len() >= MAX_CHARACTERS_PER_ACCOUNT {
            return Err(CharCreationError::TooManyCharacters(MAX_CHARACTERS_PER_ACCOUNT as u8));
        }
        let items = match class {
            Class::Novice => copy_items(&server.starting_characters.novice.items),
            Class::Summoner => copy_items(&server.starting_characters.doram.items),
            invalid => {
                return Err(CharCreationError::InvalidClass(invalid));
            },
        };
        if !name.check_valid() {
            return Err(CharCreationError::InvalidName);
        }
        if server.character_db.get_by_slot(account_id, slot).is_ok() {
            return Err(CharCreationError::InvalidSlot(slot));
        }
        let char_id = match server.character_db.create(account_id) {
            Ok(id) => id,
            Err(e) => {
                return Err(CharCreationError::CharacterDB(e));
            },
        };
        let inventory = Inventory { character_id: char_id, items };
        match server.inventory_db.create(inventory) {
            Ok(()) => {},
            Err(e) => {
                return Err(CharCreationError::InventoryDB(e));
            },
        }
        let mut character = match server.character_db.get_by_id(char_id) {
            Ok(character) => character,
            Err(e) => {
                return Err(CharCreationError::CharacterDB(e));
            },
        };
        character.name = name;
        character.slot = slot as u16;
        character.stats = stats;
        character.appearance = appearance;
        character.class = class;
        character.sex = sex;
        match server.character_db.update(&character) {
            Ok(()) => {},
            Err(e) => {
                return Err(CharCreationError::CharacterDB(e));
            },
        }
        proof {
            let before = old(server).character_db.characters();
            let made = created(char_id, account_id, new_character@);
            assert(character@ == made);
            assert(server.character_db.characters() =~= before.insert(char_id, made));
        }
        Ok(character)
    }
}

/// What `create_character` owes: how the answer `r` and the server `after`
/// follow from the server `before`, the account and the request.
pub open spec fn character_created<C: CharacterDB, I: InventoryDB>(
    before: CharacterServer<C, I>,
    after: CharacterServer<C, I>,
    account_id: AccountId,
    new_character: NewCharacterView,
    r: Result<Character, CharCreationError>,
) -> bool {
    let characters = before.character_db.characters();
    let roster = before.character_db.roster();
    match r {
        Ok(character) => {
            &&& refusal(characters, roster, account_id, new_character) is None
            &&& character@.id >= FIRST_CHARACTER_ID
            &&& !characters.contains_key(character@.id)
            &&& character@ == created(character@.id, account_id, new_character)
            &&& after.character_db.characters() == characters.insert(character@.id, character@)
            &&& after.character_db.roster() == roster.insert(
                account_id,
                roster_of(roster, account_id).push(character@.id),
            )
            &&& after.inventory_db.inventories() == before.inventory_db.inventories().insert(
                character@.id,
                InventoryView {
                    character_id: character@.id,
                    items: starting_items(before, new_character.class),
                },
            )
        },
        Err(e) => {
            &&& after.character_db.characters() == characters
            &&& after.character_db.roster() == roster
            &&& after.inventory_db.inventories() == before.inventory_db.inventories()
            &&& match refusal(characters, roster, account_id, new_character) {
                Some(reason) => e == reason,
                None => e matches CharCreationError::CharacterDB(
                    CharacterDBError::CharacterAlreadyExists(id),
                ) && characters.contains_key(id),
            }
        },
    }
}

/// Two servers hold the same tickets, characters and inventories.
pub open spec fn same_stores<C: CharacterDB, I: InventoryDB>(
    a: CharacterServer<C, I>,
    b: CharacterServer<C, I>,
) -> bool {
    &&& a.authentication_db.tickets() == b.authentication_db.tickets()
    &&& a.character_db.characters() == b.character_db.characters()
    &&& a.character_db.roster() == b.character_db.roster()
    &&& a.inventory_db.inventories() == b.inventory_db.inventories()
}

/// The answer to a ticket that was taken: the bare account id, the slot
/// count, the account's characters, the empty list of banned characters,
/// and the state of the pincode dialog with its seed, in this order.
pub open spec fn is_welcome<C: CharacterDB, I: InventoryDB>(
    reply: Reply,
    server: CharacterServer<C, I>,
    info: AccountInfo,
    seed: u32,
) -> bool {
    &&& reply.responses@.len() == 5
    &&& reply.responses@[0] matches Response::AccountConnected(id) && id == info.account_id
    &&& reply.responses@[1] is CharacterSlotCount
    &&& reply.responses@[2] matches Response::CharacterInfo(list) && views(list@) == roster_of(
        server.character_db.roster(),
        info.account_id,
    ).map_values(|c: CharacterId| server.character_db.characters()[c])
    &&& reply.responses@[3] is BannedCharacters
    &&& reply.responses@[4] matches Response::PincodeInfo(pincode) && pincode == (PincodeInfo {
        status: PincodeStatus::Correct,
        account_id: info.account_id,
        seed,
    })
    &&& reply.handoff is None
    &&& !reply.close
}

/// What a request does in a session that holds the ticket `info`.
pub open spec fn served<C: CharacterDB, I: InventoryDB>(
    before: CharacterServer<C, I>,
    after: CharacterServer<C, I>,
    info: AccountInfo,
    request: crate::character::request::RequestView,
    state: SessionState,
    reply: Reply,
) -> bool {
    match request {
        crate::character::request::RequestView::ListCharacters => {
            &&& state == SessionState::Idle(info)
            &&& same_stores(before, after)
            &&& reply.responses@.len() == 1
            &&& reply.responses@[0] matches Response::Characters(list) && views(list@)
                == roster_of(before.character_db.roster(), info.account_id).map_values(
                |c: CharacterId| before.character_db.characters()[c],
            )
            &&& reply.handoff is None
            &&& !reply.close
        },
        crate::character::request::RequestView::KeepAlive => {
            &&& state == SessionState::Idle(info)
            &&& same_stores(before, after)
            &&& reply.is_silent(false)
        },
        crate::character::request::RequestView::SelectCharacter(slot) => {
            let ids = roster_of(before.character_db.roster(), info.account_id);
            let at = first_in_slot(before.character_db.characters(), ids, slot as u16);
            &&& same_stores(before, after)
            &&& at < ids.len() ==> {
                &&& state == SessionState::CharacterPicked(info)
                &&& reply.responses@.len() == 0
                &&& reply.handoff matches Some(character) && character@
                    == before.character_db.characters()[ids[at]]
                &&& !reply.close
            }
            &&& at >= ids.len() ==> state == SessionState::Idle(info) && reply.is_rejection(false)
        },
        crate::character::request::RequestView::CreateCharacter(new_character) => {
            &&& state == SessionState::Idle(info)
            &&& after.authentication_db.tickets() == before.authentication_db.tickets()
            &&& exists|r: Result<Character, CharCreationError>|
                {
                    &&& #[trigger] character_created(
                        before,
                        after,
                        info.account_id,
                        new_character,
                        r,
                    )
                    &&& match r {
                        Ok(character) => {
                            &&& reply.responses@.len() == 1
                            &&& reply.responses@[0] matches Response::NewCharacterInfo(shown)
                                && shown@ == character@
                            &&& reply.handoff is None
                            &&& !reply.close
                        },
                        Err(_) => reply.is_rejection(false),
                    }
                }
        },
        crate::character::request::RequestView::ConnectClient(_) => {
            &&& state == SessionState::Closed
            &&& same_stores(before, after)
            &&& reply.is_rejection(true)
        },
        _ => {
            &&& state == SessionState::Idle(info)
            &&& same_stores(before, after)
            &&& reply.is_rejection(false)
        },
    }
}

/// What a request does to a session and to the server, at time `now` and
/// with the pincode seed `seed`.
///
/// A session that is closed, or that has handed its character off, answers
/// nothing and is to be closed. A session without a ticket takes one from
/// `ConnectClient`, lets `KeepAlive` pass, and closes on anything else with
/// `Rejected`. A session with a ticket serves its requests, see [`served`].
pub open spec fn handled<C: CharacterDB, I: InventoryDB>(
    old_state: SessionState,
    new_state: SessionState,
    before: CharacterServer<C, I>,
    after: CharacterServer<C, I>,
    request: crate::character::request::RequestView,
    now: Timestamp,
    seed: u32,
    reply: Reply,
) -> bool {
    match old_state {
        SessionState::Closed => new_state == SessionState::Closed && same_stores(before, after)
            && reply.is_silent(true),
        SessionState::CharacterPicked(_) => new_state == SessionState::Closed && same_stores(
            before,
            after,
        ) && reply.is_silent(true),
        SessionState::Unauthenticated => match request {
            crate::character::request::RequestView::ConnectClient(info) => {
                let tickets = before.authentication_db.tickets();
                if on_file(tickets, info, now) {
                    &&& new_state == SessionState::Idle(info)
                    &&& after.authentication_db.tickets() == tickets.remove(info.account_id)
                    &&& after.character_db.characters() == before.character_db.characters()
                    &&& after.character_db.roster() == before.character_db.roster()
                    &&& after.inventory_db.inventories() == before.inventory_db.inventories()
                    &&& is_welcome(reply, before, info, seed)
                } else {
                    &&& new_state == SessionState::Closed
                    &&& same_stores(before, after)
                    &&& reply.is_rejection(true)
                }
            },
            crate::character::request::RequestView::KeepAlive => {
                &&& new_state == SessionState::Unauthenticated
                &&& same_stores(before, after)
                &&& reply.is_silent(false)
            },
            _ => {
                &&& new_state == SessionState::Closed
                &&& same_stores(before, after)
                &&& reply.is_rejection(true)
            },
        },
        SessionState::Idle(info) => served(before, after, info, request, new_state, reply),
    }
}

impl CharacterSession {
    /// Handles a ticket that a client presents.
    fn connect<C: CharacterDB, I: InventoryDB>(
        &mut self,
        server: &mut CharacterServer<C, I>,
        info: AccountInfo,
        now: Timestamp,
        seed: u32,
    ) -> (reply: Reply)
        requires
            old(server).valid(),
            !(old(self).state is Closed),
            !(old(self).state is CharacterPicked),
        ensures
            final(server).valid(),
            final(server).starting_characters == old(server).starting_characters,
            handled(
                old(self).state,
                final(self).state,
                *old(server),
                *final(server),
                crate::character::request::RequestView::ConnectClient(info),
                now,
                seed,
                reply,
            ),
    {
        if self.is_authenticated(server, info, now) {
            let mut responses: Vec<Response> = Vec::new();
            responses.push(Response::AccountConnected(info.account_id));
            responses.push(Response::CharacterSlotCount);
            let characters = match self.get_characters(server) {
                Ok(list) => list,
                Err(_) => Vec::new(),
            };
            responses.push(Response::CharacterInfo(characters));
            responses.push(Response::BannedCharacters);
            let pincode = match self.get_pincode_info(seed) {
                Ok(pincode) => pincode,
                Err(_) => PincodeInfo {
                    status: PincodeStatus::Correct,
                    account_id: info.account_id,
                    seed,
                },
            };
            responses.push(Response::PincodeInfo(pincode));
            Reply { responses, handoff: None, close: false }
        } else {
            self.state = SessionState::Closed;
            Reply::rejection(true)
        }
    }

    /// Serves a request of a client whose ticket was taken.
    fn serve<C: CharacterDB, I: InventoryDB>(
        &mut self,
        server: &mut CharacterServer<C, I>,
        info: AccountInfo,
        request: Request,
    ) -> (reply: Reply)
        requires
            old(server).valid(),
            old(self).state == SessionState::Idle(info),
            !(request is ConnectClient),
        ensures
            final(server).valid(),
            final(server).starting_characters == old(server).starting_characters,
            served(*old(server), *final(server), info, request@, final(self).state, reply),
    {
        match request {
            Request::ListCharacters => {
                let characters = match self.get_characters(server) {
                    Ok(list) => list,
                    Err(_) => Vec::new(),
                };
                let mut responses: Vec<Response> = Vec::new();
                responses.push(Response::Characters(characters));
                Reply { responses, handoff: None, close: false }
            },
            Request::KeepAlive => Reply::silent(false),
            Request::SelectCharacter(slot) => {
                match self.select_character(server, slot) {
                    Ok(character) => {
                        self.state = SessionState::CharacterPicked(info);
                        Reply { responses: Vec::new(), handoff: Some(character), close: false }
                    },
                    Err(_) => Reply::rejection(false),
                }
            },
            Request::CreateCharacter(new_character) => {
                let ghost asked = new_character@;
                let r = self.create_character(server, new_character);
                match r {
                    Ok(character) => {
                        let shown = character.clone();
                        let mut responses: Vec<Response> = Vec::new();
                        responses.push(Response::NewCharacterInfo(shown));
                        proof {
                            assert(character_created(
                                *old(server),
                                *server,
                                info.account_id,
                                asked,
                                Ok::<Character, CharCreationError>(character),
                            ));
                        }
                        Reply { responses, handoff: None, close: false }
                    },
                    Err(e) => {
                        proof {
                            assert(character_created(
                                *old(server),
                                *server,
                                info.account_id,
                                asked,
                                Err::<Character, CharCreationError>(e),
                            ));
                        }
                        Reply::rejection(false)
                    },
                }
            },
            _ => Reply::rejection(false),
        }
    }

    /// Handles one request at time `now`; `seed` is the seed for the
    /// pincode dialog, should the request be a ticket that is taken.
    pub fn process_request_at<C: CharacterDB, I: InventoryDB>(
        &mut self,
        server: &mut CharacterServer<C, I>,
        request: Request,
        now: Timestamp,
        seed: u32,
    ) -> (reply: Reply)
        requires
            old(server).valid(),
        ensures
            final(server).valid(),
            final(server).starting_characters == old(server).starting_characters,
            handled(
                old(self).state,
                final(self).state,
                *old(server),
                *final(server),
                request@,
                now,
                seed,
                reply,
            ),
    {
        match self.state {
            SessionState::Closed => Reply::silent(true),
            SessionState::CharacterPicked(_) => {
                self.state = SessionState::Closed;
                Reply::silent(true)
            },
            SessionState::Unauthenticated => match request {
                Request::ConnectClient(info) => self.connect(server, info, now, seed),
                Request::KeepAlive => Reply::silent(false),
                _ => {
                    self.state = SessionState::Closed;
                    Reply::rejection(true)
                },
            },
            SessionState::Idle(info) => match request {
                Request::ConnectClient(_) => {
                    self.state = SessionState::Closed;
                    Reply::rejection(true)
                },
                other => self.serve(server, info, other),
            },
        }
    }

    /// Handles one request at the present time, with a seed drawn at
    /// random: see [`CharacterSession::process_request_at`].
    pub fn process_request<C: CharacterDB, I: InventoryDB>(
        &mut self,
        server: &mut CharacterServer<C, I>,
        request: Request,
    ) -> (reply: Reply)
        requires
            old(server).valid(),
        ensures
            final(server).valid(),
            final(server).starting_characters == old(server).starting_characters,
            exists|now: Timestamp, seed: u32|
                handled(
                    old(self).state,
                    final(self).state,
                    *old(server),
                    *final(server),
                    request@,
                    now,
                    seed,
                    reply,
                ),
    {
        let now = current_time();
        let seed = random_u32(0, u32::MAX);
        self.process_request_at(server, request, now, seed)
    }
}

} // verus!
