//! Characters, the character protocol and what a login server tells a
//! client about a character server.

use vstd::prelude::*;
use crate::account::db::AccountId;
use crate::account::mmo_account::Sex;
use crate::character::attributes::{
    Appearance, Class, Currency, Equipment, Experience, Grouping, Location, MercenaryGuildRank,
    Relationship, RelationshipView, Settings, Skill, Stats, Status,
};
use crate::character::db::CharacterId;
use crate::character::name::CharacterName;

pub mod attributes;
pub mod codec;
pub mod db;
pub mod error;
pub mod frame;
pub mod laws;
pub mod name;
pub mod request;
pub mod response;
pub mod server;
pub mod session;
pub mod server_list;
pub mod tcp;

verus! {

/// The maximum number of characters per account
pub const MAX_CHARACTERS_PER_ACCOUNT: usize = 12;

/// The walk speed that every character frame reports.
pub const DEFAULT_WALK_SPEED: u16 = 150;

/// Status options under which no weapon is shown.
pub const OPTIONS_INCOMPATIBLE_WITH_WEAPON: u32 = 0x0FF8_0020;

/// Whether characters may be moved between slots.
pub const CHARACTER_SLOT_MOVE_ENABLED: bool = true;

/// Whether characters may be renamed.
pub const CHARACTER_RENAME_ENABLED: bool = true;

/// The maximum number of inventory slots
pub const MAX_INVENTORY_SIZE: usize = 100;

/// A character server that a login server knows of.
pub trait CharacterServer {
    /// What the server says of itself.
    spec fn spec_info(&self) -> ServerInfo;

    fn info(&self) -> (info: ServerInfo)
        ensures
            info == self.spec_info(),
    ;
}

/// What a login server advertises of one character server.
#[derive(Debug)]
pub struct ServerInfo {
    /// IPv4 address, as a big-endian integer
    pub ip_addr: u32,
    pub port: u16,
    pub name: String,
    pub active_users: usize,
    pub server_type: ServerType,
    pub server_activity: ServerActivity,
}

impl Clone for ServerInfo {
    fn clone(&self) -> (copy: Self)
        ensures
            copy == *self,
    {
        ServerInfo {
            ip_addr: self.ip_addr,
            port: self.port,
            name: self.name.clone(),
            active_users: self.active_users,
            server_type: self.server_type,
            server_activity: self.server_activity,
        }
    }
}

/// How busy a character server is, as the client colours it.
#[derive(Clone, Copy, Debug, PartialEq, Eq, Structural)]
pub enum ServerActivity {
    /// No status color
    Hidden,
    /// Status color = green
    Smooth,
    /// Status color = yellow
    Normal,
    /// Status color = red
    Busy,
    /// Status color = purple
    Crowded,
}

impl ServerActivity {
    pub open spec fn wire_value(self) -> u16 {
        match self {
            ServerActivity::Hidden => 4,
            ServerActivity::Smooth => 0,
            ServerActivity::Normal => 1,
            ServerActivity::Busy => 2,
            ServerActivity::Crowded => 3,
        }
    }

    /// The number that stands for this value on the wire.
    pub fn into_u16(self) -> (value: u16)
        ensures
            value == self.wire_value(),
    {
        match self {
            ServerActivity::Hidden => 4,
            ServerActivity::Smooth => 0,
            ServerActivity::Normal => 1,
            ServerActivity::Busy => 2,
            ServerActivity::Crowded => 3,
        }
    }
}

impl From<ServerActivity> for u16 {
    fn from(activity: ServerActivity) -> (value: u16) {
        activity.into_u16()
    }
}

impl vstd::std_specs::convert::FromSpecImpl<ServerActivity> for u16 {
    open spec fn obeys_from_spec() -> bool {
        true
    }

    open spec fn from_spec(activity: ServerActivity) -> u16 {
        activity.wire_value()
    }
}

/// The kind of a character server, as the client labels it.
#[derive(Clone, Copy, Debug, PartialEq, Eq, Structural)]
pub enum ServerType {
    Normal,
    Maintenance,
    AdultOnly,
    Paying,
    F2P,
}

impl ServerType {
    pub open spec fn wire_value(self) -> u16 {
        match self {
            ServerType::Normal => 0,
            ServerType::Maintenance => 1,
            ServerType::AdultOnly => 2,
            ServerType::Paying => 3,
            ServerType::F2P => 4,
        }
    }

    /// The number that stands for this value on the wire.
    pub fn into_u16(self) -> (value: u16)
        ensures
            value == self.wire_value(),
    {
        match self {
            ServerType::Normal => 0,
            ServerType::Maintenance => 1,
            ServerType::AdultOnly => 2,
            ServerType::Paying => 3,
            ServerType::F2P => 4,
        }
    }
}

impl From<ServerType> for u16 {
    fn from(server_type: ServerType) -> (value: u16) {
        server_type.into_u16()
    }
}

impl vstd::std_specs::convert::FromSpecImpl<ServerType> for u16 {
    open spec fn obeys_from_spec() -> bool {
        true
    }

    open spec fn from_spec(server_type: ServerType) -> u16 {
        server_type.wire_value()
    }
}

/// A character with all that is known of it.
#[derive(Debug)]
pub struct Character {
    pub id: CharacterId,
    pub account_id: AccountId,
    pub slot: u16,
    pub sex: Sex,
    pub name: CharacterName,
    pub relationship: Relationship,
    pub experience: Experience,
    pub currency: Currency,
    pub class: Class,
    pub stats: Stats,
    pub status: Status,
    pub appearance: Appearance,
    pub grouping: Grouping,
    pub equipment: Equipment,
    pub mercenary_guild_rank: MercenaryGuildRank,
    pub location: Location,
    pub skills: Vec<Skill>,
    pub settings: Settings,
}

/// The mathematical value of a [`Character`].
pub struct CharacterView {
    pub id: CharacterId,
    pub account_id: AccountId,
    pub slot: u16,
    pub sex: Sex,
    pub name: Seq<char>,
    pub relationship: RelationshipView,
    pub experience: Experience,
    pub currency: Currency,
    pub class: Class,
    pub stats: Stats,
    pub status: Status,
    pub appearance: Appearance,
    pub grouping: Grouping,
    pub equipment: Equipment,
    pub mercenary_guild_rank: MercenaryGuildRank,
    pub location: Location,
    pub skills: Seq<Skill>,
    pub settings: Settings,
}

impl View for Character {
    type V = CharacterView;

    open spec fn view(&self) -> CharacterView {
        CharacterView {
            id: self.id,
            account_id: self.account_id,
            slot: self.slot,
            sex: self.sex,
            name: self.name@,
            relationship: self.relationship@,
            experience: self.experience,
            currency: self.currency,
            class: self.class,
            stats: self.stats,
            status: self.status,
            appearance: self.appearance,
            grouping: self.grouping,
            equipment: self.equipment,
            mercenary_guild_rank: self.mercenary_guild_rank,
            location: self.location,
            skills: self.skills@,
            settings: self.settings,
        }
    }
}

impl CharacterView {
    /// The character that the store makes for account `account_id` under
    /// the id `id`, before anything is known of it: a female novice in slot
    /// 0, without a name, with the starting stats.
    pub open spec fn initial(id: CharacterId, account_id: AccountId) -> CharacterView {
        CharacterView {
            id,
            account_id,
            slot: 0,
            sex: Sex::Female,
            name: Seq::<char>::empty(),
            relationship: RelationshipView::initial(),
            experience: Experience::initial(),
            currency: Currency { zeny: 0, fame: 0 },
            class: Class::Novice,
            stats: Stats::initial(),
            status: Status::initial(),
            appearance: Appearance::initial(),
            grouping: Grouping::initial(),
            equipment: Equipment::initial(),
            mercenary_guild_rank: MercenaryGuildRank::initial(),
            location: Location::initial(),
            skills: Seq::<Skill>::empty(),
            settings: Settings::initial(),
        }
    }
}

impl Clone for Character {
    fn clone(&self) -> (copy: Self)
        ensures
            copy@ == self@,
    {
        let mut skills: Vec<Skill> = Vec::new();
        let mut i: usize = 0;
        while i < self.skills.len()
            invariant
                i <= self.skills@.len(),
                skills@ == self.skills@.take(i as int),
            decreases self.skills@.len() - i,
        {
            skills.push(self.skills[i]);
            i = i + 1;
            assert(skills@ =~= self.skills@.take(i as int));
        }
        assert(self.skills@.take(self.skills@.len() as int) =~= self.skills@);
        Character {
            id: self.id,
            account_id: self.account_id,
            slot: self.slot,
            sex: self.sex,
            name: self.name.clone(),
            relationship: self.relationship.clone(),
            experience: self.experience,
            currency: self.currency,
            class: self.class,
            stats: self.stats,
            status: self.status,
            appearance: self.appearance,
            grouping: self.grouping,
            equipment: self.equipment,
            mercenary_guild_rank: self.mercenary_guild_rank,
            location: self.location,
            skills,
            settings: self.settings,
        }
    }
}

impl Character {
    /// Size of a character on the wire.
    pub const FRAME_SIZE: usize = 155;

    /// The character that the store makes before anything is known of it.
    pub fn new(id: CharacterId, account_id: AccountId) -> (character: Self)
        ensures
            character@ == CharacterView::initial(id, account_id),
    {
        Character {
            id,
            account_id,
            slot: 0,
            sex: Sex::Female,
            name: CharacterName::empty(),
            relationship: Default::default(),
            experience: Default::default(),
            currency: Default::default(),
            class: Class::Novice,
            stats: Default::default(),
            status: Default::default(),
            appearance: Default::default(),
            grouping: Default::default(),
            equipment: Default::default(),
            mercenary_guild_rank: Default::default(),
            location: Default::default(),
            skills: Vec::new(),
            settings: Default::default(),
        }
    }
}

} // verus!
