//! The 155 bytes that stand for a character on the wire.

use vstd::prelude::*;
use crate::character::name::name_wire;
use crate::character::{
    Character, CharacterView, DEFAULT_WALK_SPEED, OPTIONS_INCOMPATIBLE_WITH_WEAPON,
};
use crate::codec::{le16, le32, lemma_padded_len, padded, zeros, ClientTcpCodec};
use crate::map::{MapName, Maps};

verus! {

/// The low 32 bits of a 64-bit number.
pub open spec fn low32(x: u64) -> u32 {
    (x % 0x1_0000_0000) as u32
}

/// The weapon that is shown: none under a status option that hides it.
pub open spec fn shown_weapon(c: CharacterView) -> u16 {
    if c.status.option & OPTIONS_INCOMPATIBLE_WITH_WEAPON == 0 {
        c.equipment.weapon
    } else {
        0
    }
}

/// 1 unless the character was renamed already.
pub open spec fn rename_available(c: CharacterView) -> u16 {
    if c.settings.rename > 0 {
        0
    } else {
        1
    }
}

/// Bytes 0 to 39: id, experience, zeny, job level, eight zeros, status
/// option without bit 0x40, karma and manner.
pub open spec fn frame_head(c: CharacterView) -> Seq<u8> {
    le32(c.id) + le32(low32(c.experience.base_exp)) + le32(c.currency.zeny) + le32(
        low32(c.experience.job_exp),
    ) + le32(c.experience.job_level as u32) + zeros(8) + le32(c.status.option & !0x40u32) + le32(
        match c.status.karma {
            Some(karma) => karma,
            None => 0,
        },
    ) + le32(
        match c.status.manner {
            Some(manner) => manner,
            None => 0,
        },
    )
}

/// Bytes 40 to 55: status points, hit points, spell points and walk speed.
pub open spec fn frame_vitals(c: CharacterView) -> Seq<u8> {
    le16(c.experience.status_points) + le32(c.stats.hp) + le32(c.stats.max_hp) + le16(c.stats.sp)
        + le16(c.stats.max_sp) + le16(DEFAULT_WALK_SPEED)
}

/// Bytes 56 to 79: class, looks and equipment.
pub open spec fn frame_looks(c: CharacterView) -> Seq<u8> {
    le16(c.class.value()) + le16(c.appearance.hair) + le16(c.appearance.body) + le16(
        shown_weapon(c),
    ) + le16(c.experience.base_level) + le16(c.experience.skill_points) + le16(
        c.equipment.head_bottom,
    ) + le16(c.equipment.shield) + le16(c.equipment.head_top) + le16(c.equipment.head_mid) + le16(
        c.appearance.hair_color,
    ) + le16(c.appearance.clothes_color)
}

/// Bytes 80 to 113: the name, the six stats, the slot and whether a rename
/// is available.
pub open spec fn frame_identity(c: CharacterView) -> Seq<u8> {
    name_wire(c.name) + seq![
        c.stats.str,
        c.stats.agi,
        c.stats.vit,
        c.stats.int,
        c.stats.dex,
        c.stats.luk,
    ] + le16(c.slot) + le16(rename_available(c))
}

/// Bytes 114 to 154: the map's name, the deletion date, the robe, the two
/// flags that allow slot moves and renames, the sex, and eight zeros.
pub open spec fn frame_tail(c: CharacterView, map_name: Seq<u8>) -> Seq<u8> {
    padded(map_name, 16) + le32(
        match c.status.delete_date {
            Some(date) => low32(date),
            None => 0,
        },
    ) + le32(c.equipment.robe) + le32(1) + le32(1) + seq![c.sex.wire_value()] + zeros(8)
}

/// The whole frame of a character that stands on the map called `map_name`.
pub open spec fn character_frame(c: CharacterView, map_name: Seq<u8>) -> Seq<u8> {
    frame_head(c) + frame_vitals(c) + frame_looks(c) + frame_identity(c) + frame_tail(c, map_name)
}

/// The name of the map that a character stands on, as bytes; empty where
/// the table knows no such map.
pub open spec fn map_name_of(c: CharacterView, names: Seq<MapName>) -> Seq<u8> {
    let id = c.location.last_location.map_id;
    if 1 <= id <= names.len() {
        vstd::utf8::encode_utf8(names[id - 1]@)
    } else {
        Seq::<u8>::empty()
    }
}

proof fn lemma_head_len(c: CharacterView)
    ensures
        frame_head(c).len() == 40,
{
}

proof fn lemma_vitals_len(c: CharacterView)
    ensures
        frame_vitals(c).len() == 16,
{
}

proof fn lemma_looks_len(c: CharacterView)
    ensures
        frame_looks(c).len() == 24,
{
}

proof fn lemma_identity_len(c: CharacterView)
    ensures
        frame_identity(c).len() == 34,
{
    lemma_padded_len(vstd::utf8::encode_utf8(c.name), 24);
}

proof fn lemma_tail_len(c: CharacterView, map_name: Seq<u8>)
    ensures
        frame_tail(c, map_name).len() == 41,
{
    lemma_padded_len(map_name, 16);
}

/// Every character frame is exactly 155 bytes long.
pub proof fn lemma_frame_len(c: CharacterView, map_name: Seq<u8>)
    ensures
        character_frame(c, map_name).len() == 155,
{
    lemma_head_len(c);
    lemma_vitals_len(c);
    lemma_looks_len(c);
    lemma_identity_len(c);
    lemma_tail_len(c, map_name);
}

/// The low 32 bits of a 64-bit number.
fn truncate(x: u64) -> (low: u32)
    ensures
        low == low32(x),
{
    (x % 0x1_0000_0000) as u32
}

#[verifier::rlimit(40)]
fn encode_head(c: &Character, codec: &mut ClientTcpCodec<'_>)
    requires
        old(codec).wf(),
        old(codec).room() >= 40,
    ensures
        final(codec).wf(),
        final(codec).written() == old(codec).written() + frame_head(c@),
        final(codec).cursor == old(codec).cursor + 40,
        final(codec).kept(old(codec).buf@),
        final(final(codec).buf)@ == final(old(codec).buf)@,
{
    codec.encode_u32(c.id);
    codec.encode_u32(truncate(c.experience.base_exp));
    codec.encode_u32(c.currency.zeny);
    codec.encode_u32(truncate(c.experience.job_exp));
    codec.encode_u32(c.experience.job_level as u32);
    codec.padding(8);
    codec.encode_u32(c.status.option & !0x40u32);
    codec.encode_u32(
        match c.status.karma {
            Some(karma) => karma,
            None => 0,
        },
    );
    codec.encode_u32(
        match c.status.manner {
            Some(manner) => manner,
            None => 0,
        },
    );
    assert(codec.written() =~= old(codec).written() + frame_head(c@));
}

fn encode_vitals(c: &Character, codec: &mut ClientTcpCodec<'_>)
    requires
        old(codec).wf(),
        old(codec).room() >= 16,
    ensures
        final(codec).wf(),
        final(codec).written() == old(codec).written() + frame_vitals(c@),
        final(codec).cursor == old(codec).cursor + 16,
        final(codec).kept(old(codec).buf@),
        final(final(codec).buf)@ == final(old(codec).buf)@,
{
    codec.encode_u16(c.experience.status_points);
    codec.encode_u32(c.stats.hp);
    codec.encode_u32(c.stats.max_hp);
    codec.encode_u16(c.stats.sp);
    codec.encode_u16(c.stats.max_sp);
    codec.encode_u16(DEFAULT_WALK_SPEED);
    assert(codec.written() =~= old(codec).written() + frame_vitals(c@));
}

#[verifier::rlimit(40)]
fn encode_looks(c: &Character, codec: &mut ClientTcpCodec<'_>)
    requires
        old(codec).wf(),
        old(codec).room() >= 24,
    ensures
        final(codec).wf(),
        final(codec).written() == old(codec).written() + frame_looks(c@),
        final(codec).cursor == old(codec).cursor + 24,
        final(codec).kept(old(codec).buf@),
        final(final(codec).buf)@ == final(old(codec).buf)@,
{
    codec.encode_u16(c.class.int_value());
    codec.encode_u16(c.appearance.hair);
    codec.encode_u16(c.appearance.body);
    let weapon: u16 = if c.status.option & OPTIONS_INCOMPATIBLE_WITH_WEAPON == 0 {
        c.equipment.weapon
    } else {
        0
    };
    codec.encode_u16(weapon);
    codec.encode_u16(c.experience.base_level);
    codec.encode_u16(c.experience.skill_points);
    assert(codec.written() =~= old(codec).written() + (le16(c@.class.value()) + le16(
        c@.appearance.hair,
    ) + le16(c@.appearance.body) + le16(shown_weapon(c@)) + le16(c@.experience.base_level) + le16(
        c@.experience.skill_points,
    )));
    codec.encode_u16(c.equipment.head_bottom);
    codec.encode_u16(c.equipment.shield);
    codec.encode_u16(c.equipment.head_top);
    codec.encode_u16(c.equipment.head_mid);
    codec.encode_u16(c.appearance.hair_color);
    codec.encode_u16(c.appearance.clothes_color);
    assert(codec.written() =~= old(codec).written() + frame_looks(c@));
}

#[verifier::rlimit(40)]
fn encode_identity(c: &Character, codec: &mut ClientTcpCodec<'_>)
    requires
        old(codec).wf(),
        old(codec).room() >= 34,
    ensures
        final(codec).wf(),
        final(codec).written() == old(codec).written() + frame_identity(c@),
        final(codec).cursor == old(codec).cursor + 34,
        final(codec).kept(old(codec).buf@),
        final(final(codec).buf)@ == final(old(codec).buf)@,
{
    codec.encode_padded(c.name.as_bytes(), 24);
    codec.encode_u8(c.stats.str);
    codec.encode_u8(c.stats.agi);
    codec.encode_u8(c.stats.vit);
    codec.encode_u8(c.stats.int);
    codec.encode_u8(c.stats.dex);
    codec.encode_u8(c.stats.luk);
    codec.encode_u16(c.slot);
    let rename: u16 = if c.settings.rename > 0 { 0 } else { 1 };
    codec.encode_u16(rename);
    assert(codec.written() =~= old(codec).written() + frame_identity(c@));
}

#[verifier::rlimit(40)]
fn encode_tail(c: &Character, codec: &mut ClientTcpCodec<'_>, map_name: &[u8])
    requires
        old(codec).wf(),
        old(codec).room() >= 41,
    ensures
        final(codec).wf(),
        final(codec).written() == old(codec).written() + frame_tail(c@, map_name@),
        final(codec).cursor == old(codec).cursor + 41,
        final(codec).kept(old(codec).buf@),
        final(final(codec).buf)@ == final(old(codec).buf)@,
{
    codec.encode_padded(map_name, 16);
    codec.encode_u32(
        match c.status.delete_date {
            Some(date) => truncate(date),
            None => 0,
        },
    );
    codec.encode_u32(c.equipment.robe);
    codec.encode_u32(1);
    codec.encode_u32(1);
    codec.encode_u8(c.sex.into_u8());
    codec.padding(8);
    assert(codec.written() =~= old(codec).written() + frame_tail(c@, map_name@));
}

impl Character {
    /// The frame of this character, given the table of map names.
    pub open spec fn frame(&self, names: Seq<MapName>) -> Seq<u8> {
        character_frame(self@, map_name_of(self@, names))
    }

    /// Appends the 155 bytes of this character's frame.
    pub fn encode(&self, codec: &mut ClientTcpCodec<'_>, maps: &Maps)
        requires
            old(codec).wf(),
            old(codec).room() >= Character::FRAME_SIZE,
        ensures
            final(codec).wf(),
            final(codec).written() == old(codec).written() + self.frame(maps.names()),
            final(codec).cursor == old(codec).cursor + Character::FRAME_SIZE,
            final(codec).kept(old(codec).buf@),
            final(final(codec).buf)@ == final(old(codec).buf)@,
    {
        encode_head(self, codec);
        encode_vitals(self, codec);
        encode_looks(self, codec);
        encode_identity(self, codec);
        match maps.name(self.location.last_location.map_id) {
            Some(name) => {
                encode_tail(self, codec, name.as_bytes());
            },
            None => {
                let none: [u8; 0] = [];
                encode_tail(self, codec, none.as_slice());
                assert(none@ =~= Seq::<u8>::empty());
            },
        }
        assert(codec.written() =~= old(codec).written() + self.frame(maps.names()));
    }
}

} // verus!
