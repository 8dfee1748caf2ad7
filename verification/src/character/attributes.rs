//! The attributes of a character.

use vstd::prelude::*;
use crate::account::db::AccountId;
use crate::character::db::CharacterId;
use crate::clock::Timestamp;

verus! {

/// The job of a character, numbered as the client numbers it.
#[derive(Debug, Clone, Copy, PartialEq, Eq, Structural)]
pub enum Class {
    Novice,
    Swordman,
    Mage,
    Archer,
    Acolyte,
    Merchant,
    Thief,
    Knight,
    Priest,
    Wizard,
    Blacksmith,
    Hunter,
    Assassin,
    Knight2,
    Crusader,
    Monk,
    Sage,
    Rogue,
    Alchemist,
    Bard,
    Dancer,
    Crusader2,
    Wedding,
    SuperNovice,
    Gunslinger,
    Ninja,
    Xmas,
    Summer,
    Hanbok,
    Oktoberfest,
    Summer2,
    NoviceHigh,
    SwordmanHigh,
    MageHigh,
    ArcherHigh,
    AcolyteHigh,
    MerchantHigh,
    ThiefHigh,
    LordKnight,
    HighPriest,
    HighWizard,
    Whitesmith,
    Sniper,
    AssassinCross,
    LordKnight2,
    Paladin,
    Champion,
    Professor,
    Stalker,
    Creator,
    Clown,
    Gypsy,
    Paladin2,
    Baby,
    BabySwordman,
    BabyMage,
    BabyArcher,
    BabyAcolyte,
    BabyMerchant,
    BabyThief,
    BabyKnight,
    BabyPriest,
    BabyWizard,
    BabyBlacksmith,
    BabyHunter,
    BabyAssassin,
    BabyKnight2,
    BabyCrusader,
    BabyMonk,
    BabySage,
    BabyRogue,
    BabyAlchemist,
    BabyBard,
    BabyDancer,
    BabyCrusader2,
    SuperBaby,
    Taekwon,
    StarGladiator,
    StarGladiator2,
    SoulLinker,
    Gangsi,
    DeathKnight,
    DarkCollector,
    RuneKnight,
    Warlock,
    Ranger,
    ArchBishop,
    Mechanic,
    GuillotineCross,
    RuneKnightT,
    WarlockT,
    RangerT,
    ArchBishopT,
    MechanicT,
    GuillotineCrossT,
    RoyalGuard,
    Sorcerer,
    Minstrel,
    Wanderer,
    Sura,
    Genetic,
    ShadowChaser,
    RoyalGuardT,
    SorcererT,
    MinstrelT,
    WandererT,
    SuraT,
    GeneticT,
    ShadowChaserT,
    RuneKnight2,
    RuneKnightT2,
    RoyalGuard2,
    RoyalGuardT2,
    Ranger2,
    RangerT2,
    Mechanic2,
    MechanicT2,
    BabyRuneKnight,
    BabyWarlock,
    BabyRanger,
    BabyArchBishop,
    BabyMechanic,
    BabyGuillotineCross,
    BabyRoyalGuard,
    BabySorcerer,
    BabyMinstrel,
    BabyWanderer,
    BabySura,
    BabyGenetic,
    BabyShadowChaser,
    BabyRuneKnight2,
    BabyRoyalGuard2,
    BabyRanger2,
    BabyMechanic2,
    SuperNoviceE,
    SuperBabyE,
    Kagerou,
    Oboro,
    Rebellion,
    Summoner,
    BabySummoner,
    BabyNinja,
    BabyKagerou,
    BabyOboro,
    BabyTaekwon,
    BabyStarGladiator,
    BabySoulLinker,
    BabyGunslinger,
    BabyRebellion,
    BabyStarGladiator2,
    StarEmperor,
    SoulReaper,
    BabyStarEmperor,
    BabySoulReaper,
    StarEmperor2,
    BabyStarEmperor2,
}

impl Class {
    /// The number that stands for this value on the wire.
    pub open spec fn value(self) -> u16 {
        match self {
            Class::Novice => 0,
            Class::Swordman => 1,
            Class::Mage => 2,
            Class::Archer => 3,
            Class::Acolyte => 4,
            Class::Merchant => 5,
            Class::Thief => 6,
            Class::Knight => 7,
            Class::Priest => 8,
            Class::Wizard => 9,
            Class::Blacksmith => 10,
            Class::Hunter => 11,
            Class::Assassin => 12,
            Class::Knight2 => 13,
            Class::Crusader => 14,
            Class::Monk => 15,
            Class::Sage => 16,
            Class::Rogue => 17,
            Class::Alchemist => 18,
            Class::Bard => 19,
            Class::Dancer => 20,
            Class::Crusader2 => 21,
            Class::Wedding => 22,
            Class::SuperNovice => 23,
            Class::Gunslinger => 24,
            Class::Ninja => 25,
            Class::Xmas => 26,
            Class::Summer => 27,
            Class::Hanbok => 28,
            Class::Oktoberfest => 29,
            Class::Summer2 => 30,
            Class::NoviceHigh => 4001,
            Class::SwordmanHigh => 4002,
            Class::MageHigh => 4003,
            Class::ArcherHigh => 4004,
            Class::AcolyteHigh => 4005,
            Class::MerchantHigh => 4006,
            Class::ThiefHigh => 4007,
            Class::LordKnight => 4008,
            Class::HighPriest => 4009,
            Class::HighWizard => 4010,
            Class::Whitesmith => 4011,
            Class::Sniper => 4012,
            Class::AssassinCross => 4013,
            Class::LordKnight2 => 4014,
            Class::Paladin => 4015,
            Class::Champion => 4016,
            Class::Professor => 4017,
            Class::Stalker => 4018,
            Class::Creator => 4019,
            Class::Clown => 4020,
            Class::Gypsy => 4021,
            Class::Paladin2 => 4022,
            Class::Baby => 4023,
            Class::BabySwordman => 4024,
            Class::BabyMage => 4025,
            Class::BabyArcher => 4026,
            Class::BabyAcolyte => 4027,
            Class::BabyMerchant => 4028,
            Class::BabyThief => 4029,
            Class::BabyKnight => 4030,
            Class::BabyPriest => 4031,
            Class::BabyWizard => 4032,
            Class::BabyBlacksmith => 4033,
            Class::BabyHunter => 4034,
            Class::BabyAssassin => 4035,
            Class::BabyKnight2 => 4036,
            Class::BabyCrusader => 4037,
            Class::BabyMonk => 4038,
            Class::BabySage => 4039,
            Class::BabyRogue => 4040,
            Class::BabyAlchemist => 4041,
            Class::BabyBard => 4042,
            Class::BabyDancer => 4043,
            Class::BabyCrusader2 => 4044,
            Class::SuperBaby => 4045,
            Class::Taekwon => 4046,
            Class::StarGladiator => 4047,
            Class::StarGladiator2 => 4048,
            Class::SoulLinker => 4049,
            Class::Gangsi => 4050,
            Class::DeathKnight => 4051,
            Class::DarkCollector => 4052,
            Class::RuneKnight => 4054,
            Class::Warlock => 4055,
            Class::Ranger => 4056,
            Class::ArchBishop => 4057,
            Class::Mechanic => 4058,
            Class::GuillotineCross => 4059,
            Class::RuneKnightT => 4060,
            Class::WarlockT => 4061,
            Class::RangerT => 4062,
            Class::ArchBishopT => 4063,
            Class::MechanicT => 4064,
            Class::GuillotineCrossT => 4065,
            Class::RoyalGuard => 4066,
            Class::Sorcerer => 4067,
            Class::Minstrel => 4068,
            Class::Wanderer => 4069,
            Class::Sura => 4070,
            Class::Genetic => 4071,
            Class::ShadowChaser => 4072,
            Class::RoyalGuardT => 4073,
            Class::SorcererT => 4074,
            Class::MinstrelT => 4075,
            Class::WandererT => 4076,
            Class::SuraT => 4077,
            Class::GeneticT => 4078,
            Class::ShadowChaserT => 4079,
            Class::RuneKnight2 => 4080,
            Class::RuneKnightT2 => 4081,
            Class::RoyalGuard2 => 4082,
            Class::RoyalGuardT2 => 4083,
            Class::Ranger2 => 4084,
            Class::RangerT2 => 4085,
            Class::Mechanic2 => 4086,
            Class::MechanicT2 => 4087,
            Class::BabyRuneKnight => 4096,
            Class::BabyWarlock => 4097,
            Class::BabyRanger => 4098,
            Class::BabyArchBishop => 4099,
            Class::BabyMechanic => 4100,
            Class::BabyGuillotineCross => 4101,
            Class::BabyRoyalGuard => 4102,
            Class::BabySorcerer => 4103,
            Class::BabyMinstrel => 4104,
            Class::BabyWanderer => 4105,
            Class::BabySura => 4106,
            Class::BabyGenetic => 4107,
            Class::BabyShadowChaser => 4108,
            Class::BabyRuneKnight2 => 4109,
            Class::BabyRoyalGuard2 => 4110,
            Class::BabyRanger2 => 4111,
            Class::BabyMechanic2 => 4112,
            Class::SuperNoviceE => 4190,
            Class::SuperBabyE => 4191,
            Class::Kagerou => 4211,
            Class::Oboro => 4212,
            Class::Rebellion => 4215,
            Class::Summoner => 4218,
            Class::BabySummoner => 4220,
            Class::BabyNinja => 4222,
            Class::BabyKagerou => 4223,
            Class::BabyOboro => 4224,
            Class::BabyTaekwon => 4225,
            Class::BabyStarGladiator => 4226,
            Class::BabySoulLinker => 4227,
            Class::BabyGunslinger => 4228,
            Class::BabyRebellion => 4229,
            Class::BabyStarGladiator2 => 4238,
            Class::StarEmperor => 4239,
            Class::SoulReaper => 4240,
            Class::BabyStarEmperor => 4241,
            Class::BabySoulReaper => 4242,
            Class::StarEmperor2 => 4243,
            Class::BabyStarEmperor2 => 4244,
        }
    }

    /// The value that a number stands for, if any.
    pub open spec fn of_int(n: u16) -> Option<Class> {
        match n {
            0 => Some(Class::Novice),
            1 => Some(Class::Swordman),
            2 => Some(Class::Mage),
            3 => Some(Class::Archer),
            4 => Some(Class::Acolyte),
            5 => Some(Class::Merchant),
            6 => Some(Class::Thief),
            7 => Some(Class::Knight),
            8 => Some(Class::Priest),
            9 => Some(Class::Wizard),
            10 => Some(Class::Blacksmith),
            11 => Some(Class::Hunter),
            12 => Some(Class::Assassin),
            13 => Some(Class::Knight2),
            14 => Some(Class::Crusader),
            15 => Some(Class::Monk),
            16 => Some(Class::Sage),
            17 => Some(Class::Rogue),
            18 => Some(Class::Alchemist),
            19 => Some(Class::Bard),
            20 => Some(Class::Dancer),
            21 => Some(Class::Crusader2),
            22 => Some(Class::Wedding),
            23 => Some(Class::SuperNovice),
            24 => Some(Class::Gunslinger),
            25 => Some(Class::Ninja),
            26 => Some(Class::Xmas),
            27 => Some(Class::Summer),
            28 => Some(Class::Hanbok),
            29 => Some(Class::Oktoberfest),
            30 => Some(Class::Summer2),
            4001 => Some(Class::NoviceHigh),
            4002 => Some(Class::SwordmanHigh),
            4003 => Some(Class::MageHigh),
            4004 => Some(Class::ArcherHigh),
            4005 => Some(Class::AcolyteHigh),
            4006 => Some(Class::MerchantHigh),
            4007 => Some(Class::ThiefHigh),
            4008 => Some(Class::LordKnight),
            4009 => Some(Class::HighPriest),
            4010 => Some(Class::HighWizard),
            4011 => Some(Class::Whitesmith),
            4012 => Some(Class::Sniper),
            4013 => Some(Class::AssassinCross),
            4014 => Some(Class::LordKnight2),
            4015 => Some(Class::Paladin),
            4016 => Some(Class::Champion),
            4017 => Some(Class::Professor),
            4018 => Some(Class::Stalker),
            4019 => Some(Class::Creator),
            4020 => Some(Class::Clown),
            4021 => Some(Class::Gypsy),
            4022 => Some(Class::Paladin2),
            4023 => Some(Class::Baby),
            4024 => Some(Class::BabySwordman),
            4025 => Some(Class::BabyMage),
            4026 => Some(Class::BabyArcher),
            4027 => Some(Class::BabyAcolyte),
            4028 => Some(Class::BabyMerchant),
            4029 => Some(Class::BabyThief),
            4030 => Some(Class::BabyKnight),
            4031 => Some(Class::BabyPriest),
            4032 => Some(Class::BabyWizard),
            4033 => Some(Class::BabyBlacksmith),
            4034 => Some(Class::BabyHunter),
            4035 => Some(Class::BabyAssassin),
            4036 => Some(Class::BabyKnight2),
            4037 => Some(Class::BabyCrusader),
            4038 => Some(Class::BabyMonk),
            4039 => Some(Class::BabySage),
            4040 => Some(Class::BabyRogue),
            4041 => Some(Class::BabyAlchemist),
            4042 => Some(Class::BabyBard),
            4043 => Some(Class::BabyDancer),
            4044 => Some(Class::BabyCrusader2),
            4045 => Some(Class::SuperBaby),
            4046 => Some(Class::Taekwon),
            4047 => Some(Class::StarGladiator),
            4048 => Some(Class::StarGladiator2),
            4049 => Some(Class::SoulLinker),
            4050 => Some(Class::Gangsi),
            4051 => Some(Class::DeathKnight),
            4052 => Some(Class::DarkCollector),
            4054 => Some(Class::RuneKnight),
            4055 => Some(Class::Warlock),
            4056 => Some(Class::Ranger),
            4057 => Some(Class::ArchBishop),
            4058 => Some(Class::Mechanic),
            4059 => Some(Class::GuillotineCross),
            4060 => Some(Class::RuneKnightT),
            4061 => Some(Class::WarlockT),
            4062 => Some(Class::RangerT),
            4063 => Some(Class::ArchBishopT),
            4064 => Some(Class::MechanicT),
            4065 => Some(Class::GuillotineCrossT),
            4066 => Some(Class::RoyalGuard),
            4067 => Some(Class::Sorcerer),
            4068 => Some(Class::Minstrel),
            4069 => Some(Class::Wanderer),
            4070 => Some(Class::Sura),
            4071 => Some(Class::Genetic),
            4072 => Some(Class::ShadowChaser),
            4073 => Some(Class::RoyalGuardT),
            4074 => Some(Class::SorcererT),
            4075 => Some(Class::MinstrelT),
            4076 => Some(Class::WandererT),
            4077 => Some(Class::SuraT),
            4078 => Some(Class::GeneticT),
            4079 => Some(Class::ShadowChaserT),
            4080 => Some(Class::RuneKnight2),
            4081 => Some(Class::RuneKnightT2),
            4082 => Some(Class::RoyalGuard2),
            4083 => Some(Class::RoyalGuardT2),
            4084 => Some(Class::Ranger2),
            4085 => Some(Class::RangerT2),
            4086 => Some(Class::Mechanic2),
            4087 => Some(Class::MechanicT2),
            4096 => Some(Class::BabyRuneKnight),
            4097 => Some(Class::BabyWarlock),
            4098 => Some(Class::BabyRanger),
            4099 => Some(Class::BabyArchBishop),
            4100 => Some(Class::BabyMechanic),
            4101 => Some(Class::BabyGuillotineCross),
            4102 => Some(Class::BabyRoyalGuard),
            4103 => Some(Class::BabySorcerer),
            4104 => Some(Class::BabyMinstrel),
            4105 => Some(Class::BabyWanderer),
            4106 => Some(Class::BabySura),
            4107 => Some(Class::BabyGenetic),
            4108 => Some(Class::BabyShadowChaser),
            4109 => Some(Class::BabyRuneKnight2),
            4110 => Some(Class::BabyRoyalGuard2),
            4111 => Some(Class::BabyRanger2),
            4112 => Some(Class::BabyMechanic2),
            4190 => Some(Class::SuperNoviceE),
            4191 => Some(Class::SuperBabyE),
            4211 => Some(Class::Kagerou),
            4212 => Some(Class::Oboro),
            4215 => Some(Class::Rebellion),
            4218 => Some(Class::Summoner),
            4220 => Some(Class::BabySummoner),
            4222 => Some(Class::BabyNinja),
            4223 => Some(Class::BabyKagerou),
            4224 => Some(Class::BabyOboro),
            4225 => Some(Class::BabyTaekwon),
            4226 => Some(Class::BabyStarGladiator),
            4227 => Some(Class::BabySoulLinker),
            4228 => Some(Class::BabyGunslinger),
            4229 => Some(Class::BabyRebellion),
            4238 => Some(Class::BabyStarGladiator2),
            4239 => Some(Class::StarEmperor),
            4240 => Some(Class::SoulReaper),
            4241 => Some(Class::BabyStarEmperor),
            4242 => Some(Class::BabySoulReaper),
            4243 => Some(Class::StarEmperor2),
            4244 => Some(Class::BabyStarEmperor2),
            _ => None,
        }
    }

    /// The number that stands for this value on the wire.
    pub fn int_value(self) -> (n: u16)
        ensures
            n == self.value(),
    {
        match self {
            Class::Novice => 0,
            Class::Swordman => 1,
            Class::Mage => 2,
            Class::Archer => 3,
            Class::Acolyte => 4,
            Class::Merchant => 5,
            Class::Thief => 6,
            Class::Knight => 7,
            Class::Priest => 8,
            Class::Wizard => 9,
            Class::Blacksmith => 10,
            Class::Hunter => 11,
            Class::Assassin => 12,
            Class::Knight2 => 13,
            Class::Crusader => 14,
            Class::Monk => 15,
            Class::Sage => 16,
            Class::Rogue => 17,
            Class::Alchemist => 18,
            Class::Bard => 19,
            Class::Dancer => 20,
            Class::Crusader2 => 21,
            Class::Wedding => 22,
            Class::SuperNovice => 23,
            Class::Gunslinger => 24,
            Class::Ninja => 25,
            Class::Xmas => 26,
            Class::Summer => 27,
            Class::Hanbok => 28,
            Class::Oktoberfest => 29,
            Class::Summer2 => 30,
            Class::NoviceHigh => 4001,
            Class::SwordmanHigh => 4002,
            Class::MageHigh => 4003,
            Class::ArcherHigh => 4004,
            Class::AcolyteHigh => 4005,
            Class::MerchantHigh => 4006,
            Class::ThiefHigh => 4007,
            Class::LordKnight => 4008,
            Class::HighPriest => 4009,
            Class::HighWizard => 4010,
            Class::Whitesmith => 4011,
            Class::Sniper => 4012,
            Class::AssassinCross => 4013,
            Class::LordKnight2 => 4014,
            Class::Paladin => 4015,
            Class::Champion => 4016,
            Class::Professor => 4017,
            Class::Stalker => 4018,
            Class::Creator => 4019,
            Class::Clown => 4020,
            Class::Gypsy => 4021,
            Class::Paladin2 => 4022,
            Class::Baby => 4023,
            Class::BabySwordman => 4024,
            Class::BabyMage => 4025,
            Class::BabyArcher => 4026,
            Class::BabyAcolyte => 4027,
            Class::BabyMerchant => 4028,
            Class::BabyThief => 4029,
            Class::BabyKnight => 4030,
            Class::BabyPriest => 4031,
            Class::BabyWizard => 4032,
            Class::BabyBlacksmith => 4033,
            Class::BabyHunter => 4034,
            Class::BabyAssassin => 4035,
            Class::BabyKnight2 => 4036,
            Class::BabyCrusader => 4037,
            Class::BabyMonk => 4038,
            Class::BabySage => 4039,
            Class::BabyRogue => 4040,
            Class::BabyAlchemist => 4041,
            Class::BabyBard => 4042,
            Class::BabyDancer => 4043,
            Class::BabyCrusader2 => 4044,
            Class::SuperBaby => 4045,
            Class::Taekwon => 4046,
            Class::StarGladiator => 4047,
            Class::StarGladiator2 => 4048,
            Class::SoulLinker => 4049,
            Class::Gangsi => 4050,
            Class::DeathKnight => 4051,
            Class::DarkCollector => 4052,
            Class::RuneKnight => 4054,
            Class::Warlock => 4055,
            Class::Ranger => 4056,
            Class::ArchBishop => 4057,
            Class::Mechanic => 4058,
            Class::GuillotineCross => 4059,
            Class::RuneKnightT => 4060,
            Class::WarlockT => 4061,
            Class::RangerT => 4062,
            Class::ArchBishopT => 4063,
            Class::MechanicT => 4064,
            Class::GuillotineCrossT => 4065,
            Class::RoyalGuard => 4066,
            Class::Sorcerer => 4067,
            Class::Minstrel => 4068,
            Class::Wanderer => 4069,
            Class::Sura => 4070,
            Class::Genetic => 4071,
            Class::ShadowChaser => 4072,
            Class::RoyalGuardT => 4073,
            Class::SorcererT => 4074,
            Class::MinstrelT => 4075,
            Class::WandererT => 4076,
            Class::SuraT => 4077,
            Class::GeneticT => 4078,
            Class::ShadowChaserT => 4079,
            Class::RuneKnight2 => 4080,
            Class::RuneKnightT2 => 4081,
            Class::RoyalGuard2 => 4082,
            Class::RoyalGuardT2 => 4083,
            Class::Ranger2 => 4084,
            Class::RangerT2 => 4085,
            Class::Mechanic2 => 4086,
            Class::MechanicT2 => 4087,
            Class::BabyRuneKnight => 4096,
            Class::BabyWarlock => 4097,
            Class::BabyRanger => 4098,
            Class::BabyArchBishop => 4099,
            Class::BabyMechanic => 4100,
            Class::BabyGuillotineCross => 4101,
            Class::BabyRoyalGuard => 4102,
            Class::BabySorcerer => 4103,
            Class::BabyMinstrel => 4104,
            Class::BabyWanderer => 4105,
            Class::BabySura => 4106,
            Class::BabyGenetic => 4107,
            Class::BabyShadowChaser => 4108,
            Class::BabyRuneKnight2 => 4109,
            Class::BabyRoyalGuard2 => 4110,
            Class::BabyRanger2 => 4111,
            Class::BabyMechanic2 => 4112,
            Class::SuperNoviceE => 4190,
            Class::SuperBabyE => 4191,
            Class::Kagerou => 4211,
            Class::Oboro => 4212,
            Class::Rebellion => 4215,
            Class::Summoner => 4218,
            Class::BabySummoner => 4220,
            Class::BabyNinja => 4222,
            Class::BabyKagerou => 4223,
            Class::BabyOboro => 4224,
            Class::BabyTaekwon => 4225,
            Class::BabyStarGladiator => 4226,
            Class::BabySoulLinker => 4227,
            Class::BabyGunslinger => 4228,
            Class::BabyRebellion => 4229,
            Class::BabyStarGladiator2 => 4238,
            Class::StarEmperor => 4239,
            Class::SoulReaper => 4240,
            Class::BabyStarEmperor => 4241,
            Class::BabySoulReaper => 4242,
            Class::StarEmperor2 => 4243,
            Class::BabyStarEmperor2 => 4244,
        }
    }

    /// The value that a number stands for, if any.
    pub fn from_int(n: u16) -> (r: Option<Class>)
        ensures
            r == Class::of_int(n),
    {
        match n {
            0 => Some(Class::Novice),
            1 => Some(Class::Swordman),
            2 => Some(Class::Mage),
            3 => Some(Class::Archer),
            4 => Some(Class::Acolyte),
            5 => Some(Class::Merchant),
            6 => Some(Class::Thief),
            7 => Some(Class::Knight),
            8 => Some(Class::Priest),
            9 => Some(Class::Wizard),
            10 => Some(Class::Blacksmith),
            11 => Some(Class::Hunter),
            12 => Some(Class::Assassin),
            13 => Some(Class::Knight2),
            14 => Some(Class::Crusader),
            15 => Some(Class::Monk),
            16 => Some(Class::Sage),
            17 => Some(Class::Rogue),
            18 => Some(Class::Alchemist),
            19 => Some(Class::Bard),
            20 => Some(Class::Dancer),
            21 => Some(Class::Crusader2),
            22 => Some(Class::Wedding),
            23 => Some(Class::SuperNovice),
            24 => Some(Class::Gunslinger),
            25 => Some(Class::Ninja),
            26 => Some(Class::Xmas),
            27 => Some(Class::Summer),
            28 => Some(Class::Hanbok),
            29 => Some(Class::Oktoberfest),
            30 => Some(Class::Summer2),
            4001 => Some(Class::NoviceHigh),
            4002 => Some(Class::SwordmanHigh),
            4003 => Some(Class::MageHigh),
            4004 => Some(Class::ArcherHigh),
            4005 => Some(Class::AcolyteHigh),
            4006 => Some(Class::MerchantHigh),
            4007 => Some(Class::ThiefHigh),
            4008 => Some(Class::LordKnight),
            4009 => Some(Class::HighPriest),
            4010 => Some(Class::HighWizard),
            4011 => Some(Class::Whitesmith),
            4012 => Some(Class::Sniper),
            4013 => Some(Class::AssassinCross),
            4014 => Some(Class::LordKnight2),
            4015 => Some(Class::Paladin),
            4016 => Some(Class::Champion),
            4017 => Some(Class::Professor),
            4018 => Some(Class::Stalker),
            4019 => Some(Class::Creator),
            4020 => Some(Class::Clown),
            4021 => Some(Class::Gypsy),
            4022 => Some(Class::Paladin2),
            4023 => Some(Class::Baby),
            4024 => Some(Class::BabySwordman),
            4025 => Some(Class::BabyMage),
            4026 => Some(Class::BabyArcher),
            4027 => Some(Class::BabyAcolyte),
            4028 => Some(Class::BabyMerchant),
            4029 => Some(Class::BabyThief),
            4030 => Some(Class::BabyKnight),
            4031 => Some(Class::BabyPriest),
            4032 => Some(Class::BabyWizard),
            4033 => Some(Class::BabyBlacksmith),
            4034 => Some(Class::BabyHunter),
            4035 => Some(Class::BabyAssassin),
            4036 => Some(Class::BabyKnight2),
            4037 => Some(Class::BabyCrusader),
            4038 => Some(Class::BabyMonk),
            4039 => Some(Class::BabySage),
            4040 => Some(Class::BabyRogue),
            4041 => Some(Class::BabyAlchemist),
            4042 => Some(Class::BabyBard),
            4043 => Some(Class::BabyDancer),
            4044 => Some(Class::BabyCrusader2),
            4045 => Some(Class::SuperBaby),
            4046 => Some(Class::Taekwon),
            4047 => Some(Class::StarGladiator),
            4048 => Some(Class::StarGladiator2),
            4049 => Some(Class::SoulLinker),
            4050 => Some(Class::Gangsi),
            4051 => Some(Class::DeathKnight),
            4052 => Some(Class::DarkCollector),
            4054 => Some(Class::RuneKnight),
            4055 => Some(Class::Warlock),
            4056 => Some(Class::Ranger),
            4057 => Some(Class::ArchBishop),
            4058 => Some(Class::Mechanic),
            4059 => Some(Class::GuillotineCross),
            4060 => Some(Class::RuneKnightT),
            4061 => Some(Class::WarlockT),
            4062 => Some(Class::RangerT),
            4063 => Some(Class::ArchBishopT),
            4064 => Some(Class::MechanicT),
            4065 => Some(Class::GuillotineCrossT),
            4066 => Some(Class::RoyalGuard),
            4067 => Some(Class::Sorcerer),
            4068 => Some(Class::Minstrel),
            4069 => Some(Class::Wanderer),
            4070 => Some(Class::Sura),
            4071 => Some(Class::Genetic),
            4072 => Some(Class::ShadowChaser),
            4073 => Some(Class::RoyalGuardT),
            4074 => Some(Class::SorcererT),
            4075 => Some(Class::MinstrelT),
            4076 => Some(Class::WandererT),
            4077 => Some(Class::SuraT),
            4078 => Some(Class::GeneticT),
            4079 => Some(Class::ShadowChaserT),
            4080 => Some(Class::RuneKnight2),
            4081 => Some(Class::RuneKnightT2),
            4082 => Some(Class::RoyalGuard2),
            4083 => Some(Class::RoyalGuardT2),
            4084 => Some(Class::Ranger2),
            4085 => Some(Class::RangerT2),
            4086 => Some(Class::Mechanic2),
            4087 => Some(Class::MechanicT2),
            4096 => Some(Class::BabyRuneKnight),
            4097 => Some(Class::BabyWarlock),
            4098 => Some(Class::BabyRanger),
            4099 => Some(Class::BabyArchBishop),
            4100 => Some(Class::BabyMechanic),
            4101 => Some(Class::BabyGuillotineCross),
            4102 => Some(Class::BabyRoyalGuard),
            4103 => Some(Class::BabySorcerer),
            4104 => Some(Class::BabyMinstrel),
            4105 => Some(Class::BabyWanderer),
            4106 => Some(Class::BabySura),
            4107 => Some(Class::BabyGenetic),
            4108 => Some(Class::BabyShadowChaser),
            4109 => Some(Class::BabyRuneKnight2),
            4110 => Some(Class::BabyRoyalGuard2),
            4111 => Some(Class::BabyRanger2),
            4112 => Some(Class::BabyMechanic2),
            4190 => Some(Class::SuperNoviceE),
            4191 => Some(Class::SuperBabyE),
            4211 => Some(Class::Kagerou),
            4212 => Some(Class::Oboro),
            4215 => Some(Class::Rebellion),
            4218 => Some(Class::Summoner),
            4220 => Some(Class::BabySummoner),
            4222 => Some(Class::BabyNinja),
            4223 => Some(Class::BabyKagerou),
            4224 => Some(Class::BabyOboro),
            4225 => Some(Class::BabyTaekwon),
            4226 => Some(Class::BabyStarGladiator),
            4227 => Some(Class::BabySoulLinker),
            4228 => Some(Class::BabyGunslinger),
            4229 => Some(Class::BabyRebellion),
            4238 => Some(Class::BabyStarGladiator2),
            4239 => Some(Class::StarEmperor),
            4240 => Some(Class::SoulReaper),
            4241 => Some(Class::BabyStarEmperor),
            4242 => Some(Class::BabySoulReaper),
            4243 => Some(Class::StarEmperor2),
            4244 => Some(Class::BabyStarEmperor2),
            _ => None,
        }
    }
}

/// A number stands for at most one class, and each class for its number.
pub proof fn lemma_class_roundtrip(class: Class, n: u16)
    ensures
        Class::of_int(class.value()) == Some(class),
        Class::of_int(n) matches Some(c) ==> c.value() == n,
{
}

/// The six basic stats, and hit and spell points.
#[derive(Debug, Clone, Copy, PartialEq, Eq, Structural)]
pub struct Stats {
    pub str: u8,
    pub agi: u8,
    pub vit: u8,
    pub int: u8,
    pub dex: u8,
    pub luk: u8,
    pub hp: u32,
    pub max_hp: u32,
    pub sp: u16,
    pub max_sp: u16,
}

impl Stats {
    /// The stats that every character starts with.
    pub open spec fn initial() -> Stats {
        Stats {
            str: 1,
            agi: 1,
            vit: 1,
            int: 1,
            dex: 1,
            luk: 1,
            hp: ((40 * 101) / 100) as u32,
            max_hp: ((40 * 101) / 100) as u32,
            sp: ((11 * 101) / 100) as u16,
            max_sp: ((11 * 101) / 100) as u16,
        }
    }
}

impl Default for Stats {
    fn default() -> (stats: Self)
        ensures
            stats == Stats::initial(),
    {
        let hp: u32 = (40 * 101) / 100;
        let sp: u16 = (11 * 101) / 100;
        Stats { str: 1, agi: 1, vit: 1, int: 1, dex: 1, luk: 1, hp, max_hp: hp, sp, max_sp: sp }
    }
}

/// Levels and the points earned towards and from them.
#[derive(Debug, Clone, Copy, PartialEq, Eq, Structural)]
pub struct Experience {
    pub base_level: u16,
    pub job_level: u16,
    pub base_exp: u64,
    pub job_exp: u64,
    pub status_points: u16,
    pub skill_points: u16,
}

impl Experience {
    /// The experience that every character starts with.
    pub open spec fn initial() -> Experience {
        Experience {
            base_level: 1,
            job_level: 1,
            base_exp: 0,
            job_exp: 0,
            status_points: 48,
            skill_points: 0,
        }
    }
}

impl Default for Experience {
    fn default() -> (experience: Self)
        ensures
            experience == Experience::initial(),
    {
        Experience {
            base_level: 1,
            job_level: 1,
            base_exp: 0,
            job_exp: 0,
            status_points: 48,
            skill_points: 0,
        }
    }
}

/// What a character owns in money and fame.
#[derive(Debug, Clone, Copy, PartialEq, Eq, Structural)]
pub struct Currency {
    pub zeny: u32,
    pub fame: i32,
}

impl Default for Currency {
    fn default() -> (currency: Self)
        ensures
            currency == (Currency { zeny: 0, fame: 0 }),
    {
        Currency { zeny: 0, fame: 0 }
    }
}

/// Passing conditions of a character.
#[derive(Debug, Clone, Copy, PartialEq, Eq, Structural)]
pub struct Status {
    pub option: u32,
    /// Minutes the character will be muted
    pub manner: Option<u32>,
    pub karma: Option<u32>,
    pub delete_date: Option<Timestamp>,
    pub unban_on: Option<Timestamp>,
}

impl Status {
    pub open spec fn initial() -> Status {
        Status { option: 0, manner: None, karma: None, delete_date: None, unban_on: None }
    }
}

impl Default for Status {
    fn default() -> (status: Self)
        ensures
            status == Status::initial(),
    {
        Status { option: 0, manner: None, karma: None, delete_date: None, unban_on: None }
    }
}

/// How a character looks.
#[derive(Debug, Clone, Copy, PartialEq, Eq, Structural)]
pub struct Appearance {
    pub hair: u16,
    pub hair_color: u16,
    pub clothes: u16,
    pub clothes_color: u16,
    pub body: u16,
}

impl Appearance {
    pub open spec fn initial() -> Appearance {
        Appearance { hair: 0, hair_color: 0, clothes: 0, clothes_color: 0, body: 0 }
    }
}

impl Default for Appearance {
    fn default() -> (appearance: Self)
        ensures
            appearance == Appearance::initial(),
    {
        Appearance { hair: 0, hair_color: 0, clothes: 0, clothes_color: 0, body: 0 }
    }
}

/// The groups and companions of a character.
#[derive(Debug, Clone, Copy, PartialEq, Eq, Structural)]
pub struct Grouping {
    pub party_id: i32,
    pub guild_id: i32,
    pub pet_id: i32,
    pub homunculus_id: i32,
    pub mermaid_id: i32,
    pub elemental_id: i32,
    pub clan_id: i32,
}

impl Grouping {
    pub open spec fn initial() -> Grouping {
        Grouping {
            party_id: 0,
            guild_id: 0,
            pet_id: 0,
            homunculus_id: 0,
            mermaid_id: 0,
            elemental_id: 0,
            clan_id: 0,
        }
    }
}

impl Default for Grouping {
    fn default() -> (grouping: Self)
        ensures
            grouping == Grouping::initial(),
    {
        Grouping {
            party_id: 0,
            guild_id: 0,
            pet_id: 0,
            homunculus_id: 0,
            mermaid_id: 0,
            elemental_id: 0,
            clan_id: 0,
        }
    }
}

/// Standing with the three mercenary guilds.
#[derive(Debug, Clone, Copy, PartialEq, Eq, Structural)]
pub struct MercenaryGuildRank {
    pub arch_faith: i32,
    pub arch_calls: i32,
    pub spear_faith: i32,
    pub spear_calls: i32,
    pub sword_faith: i32,
    pub sword_calls: i32,
}

impl MercenaryGuildRank {
    pub open spec fn initial() -> MercenaryGuildRank {
        MercenaryGuildRank {
            arch_faith: 0,
            arch_calls: 0,
            spear_faith: 0,
            spear_calls: 0,
            sword_faith: 0,
            sword_calls: 0,
        }
    }
}

impl Default for MercenaryGuildRank {
    fn default() -> (rank: Self)
        ensures
            rank == MercenaryGuildRank::initial(),
    {
        MercenaryGuildRank {
            arch_faith: 0,
            arch_calls: 0,
            spear_faith: 0,
            spear_calls: 0,
            sword_faith: 0,
            sword_calls: 0,
        }
    }
}

/// What a character visibly wears and holds.
#[derive(Debug, Clone, Copy, PartialEq, Eq, Structural)]
pub struct Equipment {
    pub weapon: u16,
    pub shield: u16,
    pub head_top: u16,
    pub head_mid: u16,
    pub head_bottom: u16,
    pub robe: u32,
}

impl Equipment {
    pub open spec fn initial() -> Equipment {
        Equipment { weapon: 0, shield: 0, head_top: 0, head_mid: 0, head_bottom: 0, robe: 0 }
    }
}

impl Default for Equipment {
    fn default() -> (equipment: Self)
        ensures
            equipment == Equipment::initial(),
    {
        Equipment { weapon: 0, shield: 0, head_top: 0, head_mid: 0, head_bottom: 0, robe: 0 }
    }
}

/// The kind of weapon that a character holds.
#[derive(Debug, Clone, Copy, PartialEq, Eq, Structural)]
pub enum Weapon {
    Fist,
    Dagger,
    OneHandedSword,
    TwoHandedSword,
    OneHandedSpear,
    TwoHandedSpear,
    OneHandedAxe,
    TwoHandedAxe,
    Mace,
    TwoHandedMace,
    Staff,
    Bow,
    Knuckle,
    Musical,
    Whip,
    Book,
    Katar,
    Revolver,
    Rifle,
    Gatling,
    Shotgun,
    Grenade,
    Huuma,
    TwoHandedStaff,
    DoubleDaggers,
    DoubleSwords,
    DoubleAxes,
    DaggerAndSword,
    DaggerAndAxe,
    SwordAndAxe,
}

impl Weapon {
    /// The number that stands for this value on the wire.
    pub open spec fn value(self) -> u16 {
        match self {
            Weapon::Fist => 0,
            Weapon::Dagger => 1,
            Weapon::OneHandedSword => 2,
            Weapon::TwoHandedSword => 3,
            Weapon::OneHandedSpear => 4,
            Weapon::TwoHandedSpear => 5,
            Weapon::OneHandedAxe => 6,
            Weapon::TwoHandedAxe => 7,
            Weapon::Mace => 8,
            Weapon::TwoHandedMace => 9,
            Weapon::Staff => 10,
            Weapon::Bow => 11,
            Weapon::Knuckle => 12,
            Weapon::Musical => 13,
            Weapon::Whip => 14,
            Weapon::Book => 15,
            Weapon::Katar => 16,
            Weapon::Revolver => 17,
            Weapon::Rifle => 18,
            Weapon::Gatling => 19,
            Weapon::Shotgun => 20,
            Weapon::Grenade => 21,
            Weapon::Huuma => 22,
            Weapon::TwoHandedStaff => 23,
            Weapon::DoubleDaggers => 25,
            Weapon::DoubleSwords => 26,
            Weapon::DoubleAxes => 27,
            Weapon::DaggerAndSword => 28,
            Weapon::DaggerAndAxe => 29,
            Weapon::SwordAndAxe => 30,
        }
    }

    /// The value that a number stands for, if any.
    pub open spec fn of_int(n: u16) -> Option<Weapon> {
        match n {
            0 => Some(Weapon::Fist),
            1 => Some(Weapon::Dagger),
            2 => Some(Weapon::OneHandedSword),
            3 => Some(Weapon::TwoHandedSword),
            4 => Some(Weapon::OneHandedSpear),
            5 => Some(Weapon::TwoHandedSpear),
            6 => Some(Weapon::OneHandedAxe),
            7 => Some(Weapon::TwoHandedAxe),
            8 => Some(Weapon::Mace),
            9 => Some(Weapon::TwoHandedMace),
            10 => Some(Weapon::Staff),
            11 => Some(Weapon::Bow),
            12 => Some(Weapon::Knuckle),
            13 => Some(Weapon::Musical),
            14 => Some(Weapon::Whip),
            15 => Some(Weapon::Book),
            16 => Some(Weapon::Katar),
            17 => Some(Weapon::Revolver),
            18 => Some(Weapon::Rifle),
            19 => Some(Weapon::Gatling),
            20 => Some(Weapon::Shotgun),
            21 => Some(Weapon::Grenade),
            22 => Some(Weapon::Huuma),
            23 => Some(Weapon::TwoHandedStaff),
            25 => Some(Weapon::DoubleDaggers),
            26 => Some(Weapon::DoubleSwords),
            27 => Some(Weapon::DoubleAxes),
            28 => Some(Weapon::DaggerAndSword),
            29 => Some(Weapon::DaggerAndAxe),
            30 => Some(Weapon::SwordAndAxe),
            _ => None,
        }
    }

    /// The number that stands for this value on the wire.
    pub fn int_value(self) -> (n: u16)
        ensures
            n == self.value(),
    {
        match self {
            Weapon::Fist => 0,
            Weapon::Dagger => 1,
            Weapon::OneHandedSword => 2,
            Weapon::TwoHandedSword => 3,
            Weapon::OneHandedSpear => 4,
            Weapon::TwoHandedSpear => 5,
            Weapon::OneHandedAxe => 6,
            Weapon::TwoHandedAxe => 7,
            Weapon::Mace => 8,
            Weapon::TwoHandedMace => 9,
            Weapon::Staff => 10,
            Weapon::Bow => 11,
            Weapon::Knuckle => 12,
            Weapon::Musical => 13,
            Weapon::Whip => 14,
            Weapon::Book => 15,
            Weapon::Katar => 16,
            Weapon::Revolver => 17,
            Weapon::Rifle => 18,
            Weapon::Gatling => 19,
            Weapon::Shotgun => 20,
            Weapon::Grenade => 21,
            Weapon::Huuma => 22,
            Weapon::TwoHandedStaff => 23,
            Weapon::DoubleDaggers => 25,
            Weapon::DoubleSwords => 26,
            Weapon::DoubleAxes => 27,
            Weapon::DaggerAndSword => 28,
            Weapon::DaggerAndAxe => 29,
            Weapon::SwordAndAxe => 30,
        }
    }

    /// The value that a number stands for, if any.
    pub fn from_int(n: u16) -> (r: Option<Weapon>)
        ensures
            r == Weapon::of_int(n),
    {
        match n {
            0 => Some(Weapon::Fist),
            1 => Some(Weapon::Dagger),
            2 => Some(Weapon::OneHandedSword),
            3 => Some(Weapon::TwoHandedSword),
            4 => Some(Weapon::OneHandedSpear),
            5 => Some(Weapon::TwoHandedSpear),
            6 => Some(Weapon::OneHandedAxe),
            7 => Some(Weapon::TwoHandedAxe),
            8 => Some(Weapon::Mace),
            9 => Some(Weapon::TwoHandedMace),
            10 => Some(Weapon::Staff),
            11 => Some(Weapon::Bow),
            12 => Some(Weapon::Knuckle),
            13 => Some(Weapon::Musical),
            14 => Some(Weapon::Whip),
            15 => Some(Weapon::Book),
            16 => Some(Weapon::Katar),
            17 => Some(Weapon::Revolver),
            18 => Some(Weapon::Rifle),
            19 => Some(Weapon::Gatling),
            20 => Some(Weapon::Shotgun),
            21 => Some(Weapon::Grenade),
            22 => Some(Weapon::Huuma),
            23 => Some(Weapon::TwoHandedStaff),
            25 => Some(Weapon::DoubleDaggers),
            26 => Some(Weapon::DoubleSwords),
            27 => Some(Weapon::DoubleAxes),
            28 => Some(Weapon::DaggerAndSword),
            29 => Some(Weapon::DaggerAndAxe),
            30 => Some(Weapon::SwordAndAxe),
            _ => None,
        }
    }
}

/// Family and friends of a character.
#[derive(Debug)]
pub struct Relationship {
    pub partner_id: u32,
    pub father: u32,
    pub mother: u32,
    pub child: u32,
    pub friends: Vec<Friend>,
}

/// The mathematical value of a [`Relationship`].
pub struct RelationshipView {
    pub partner_id: u32,
    pub father: u32,
    pub mother: u32,
    pub child: u32,
    pub friends: Seq<Friend>,
}

impl View for Relationship {
    type V = RelationshipView;

    open spec fn view(&self) -> RelationshipView {
        RelationshipView {
            partner_id: self.partner_id,
            father: self.father,
            mother: self.mother,
            child: self.child,
            friends: self.friends@,
        }
    }
}

impl RelationshipView {
    pub open spec fn initial() -> RelationshipView {
        RelationshipView {
            partner_id: 0,
            father: 0,
            mother: 0,
            child: 0,
            friends: Seq::<Friend>::empty(),
        }
    }
}

impl Default for Relationship {
    fn default() -> (relationship: Self)
        ensures
            relationship@ == RelationshipView::initial(),
    {
        Relationship { partner_id: 0, father: 0, mother: 0, child: 0, friends: Vec::new() }
    }
}

impl Clone for Relationship {
    fn clone(&self) -> (copy: Self)
        ensures
            copy@ == self@,
    {
        let mut friends: Vec<Friend> = Vec::new();
        let mut i: usize = 0;
        while i < self.friends.len()
            invariant
                i <= self.friends@.len(),
                friends@ == self.friends@.take(i as int),
            decreases self.friends@.len() - i,
        {
            friends.push(self.friends[i].clone());
            i = i + 1;
            assert(friends@ =~= self.friends@.take(i as int));
        }
        assert(self.friends@.take(self.friends@.len() as int) =~= self.friends@);
        Relationship {
            partner_id: self.partner_id,
            father: self.father,
            mother: self.mother,
            child: self.child,
            friends,
        }
    }
}

/// One friend of a character.
#[derive(Debug)]
pub struct Friend {
    pub account_id: AccountId,
    pub char_id: CharacterId,
    pub name: String,
}

impl Clone for Friend {
    fn clone(&self) -> (copy: Self)
        ensures
            copy == *self,
    {
        Friend { account_id: self.account_id, char_id: self.char_id, name: self.name.clone() }
    }
}

/// Where a character is, and where it returns to.
#[derive(Clone, Copy, Debug, PartialEq, Eq, Structural)]
pub struct Location {
    pub map_server_id: usize,
    pub last_location: Point,
    pub save: Option<Point>,
    pub memo: Option<Point>,
}

impl Location {
    /// Where every character starts.
    pub open spec fn initial() -> Location {
        Location {
            map_server_id: 0,
            last_location: Point { map_id: 0, x: 0, y: 0 },
            save: None,
            memo: None,
        }
    }
}

impl Default for Location {
    fn default() -> (location: Self)
        ensures
            location == Location::initial(),
    {
        Location {
            map_server_id: 0,
            last_location: Point { map_id: 0, x: 0, y: 0 },
            save: None,
            memo: None,
        }
    }
}

/// A cell of a map.
#[derive(Clone, Copy, Debug, PartialEq, Eq, Structural)]
pub struct Point {
    pub map_id: u16,
    pub x: u16,
    pub y: u16,
}

/// A skill that a character has, and at what level.
#[derive(Clone, Copy, Debug, PartialEq, Eq, Structural)]
pub struct Skill {
    pub id: u16,
    pub level: u8,
    pub flag: SkillFlag,
}

/// How a character came by a skill.
#[derive(Clone, Copy, Debug, PartialEq, Eq, Structural)]
pub enum SkillFlag {
    Permanent,
    Temporary,
    Plagiarized,
    Granted,
    TemporaryCombo,
    ReplacedLevel0,
}

/// What one hotkey is bound to.
#[derive(Clone, Copy, Debug, PartialEq, Eq, Structural)]
pub struct Hotkey {
    pub id: u32,
    pub level: u16,
    pub type_of: HotkeyType,
}

/// What a hotkey stands for.
#[derive(Debug, Clone, Copy, PartialEq, Eq, Structural)]
pub enum HotkeyType {
    Item,
    Skill,
}

impl HotkeyType {
    /// The number that stands for this value on the wire.
    pub open spec fn value(self) -> u8 {
        match self {
            HotkeyType::Item => 0,
            HotkeyType::Skill => 1,
        }
    }

    /// The value that a number stands for, if any.
    pub open spec fn of_int(n: u8) -> Option<HotkeyType> {
        match n {
            0 => Some(HotkeyType::Item),
            1 => Some(HotkeyType::Skill),
            _ => None,
        }
    }

    /// The number that stands for this value on the wire.
    pub fn int_value(self) -> (n: u8)
        ensures
            n == self.value(),
    {
        match self {
            HotkeyType::Item => 0,
            HotkeyType::Skill => 1,
        }
    }

    /// The value that a number stands for, if any.
    pub fn from_int(n: u8) -> (r: Option<HotkeyType>)
        ensures
            r == HotkeyType::of_int(n),
    {
        match n {
            0 => Some(HotkeyType::Item),
            1 => Some(HotkeyType::Skill),
            _ => None,
        }
    }
}

/// Choices that a player made for a character.
#[derive(Clone, Copy, Debug, PartialEq, Eq, Structural)]
pub struct Settings {
    pub show_equip: bool,
    pub allow_party: bool,
    pub rename: u16,
    pub font_id: u8,
    pub cash_shop_sent: bool,
    pub unique_item_counter: u32,
    pub hotkey_row_shift: u8,
    pub hotkey_row_shift2: u8,
    pub title_id: u32,
}

impl Settings {
    pub open spec fn initial() -> Settings {
        Settings {
            show_equip: false,
            allow_party: false,
            rename: 0,
            font_id: 0,
            cash_shop_sent: false,
            unique_item_counter: 0,
            hotkey_row_shift: 0,
            hotkey_row_shift2: 0,
            title_id: 0,
        }
    }
}

impl Default for Settings {
    fn default() -> (settings: Self)
        ensures
            settings == Settings::initial(),
    {
        Settings {
            show_equip: false,
            allow_party: false,
            rename: 0,
            font_id: 0,
            cash_shop_sent: false,
            unique_item_counter: 0,
            hotkey_row_shift: 0,
            hotkey_row_shift2: 0,
            title_id: 0,
        }
    }
}

} // verus!
