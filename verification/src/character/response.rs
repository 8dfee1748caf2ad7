//! Responses of the character protocol and their wire form.

use vstd::prelude::*;
use crate::account::db::AccountId;
use crate::character::frame::lemma_frame_len;
use crate::character::{Character, MAX_CHARACTERS_PER_ACCOUNT};
use crate::codec::{le16, le32, serialized, zeros, ClientTcpCodec};
use crate::map::{MapName, Maps};
use crate::pincode::PincodeInfo;

verus! {

/// What the character server tells a client.
pub enum Response {
    /// The account id alone: this response has no opcode.
    AccountConnected(AccountId),
    Rejected,
    CharacterSlotCount,
    CharacterInfo(Vec<Character>),
    Characters(Vec<Character>),
    CharacterPagesAvailable(u32),
    BannedCharacters,
    PincodeInfo(PincodeInfo),
    NewCharacterInfo(Character),
}

/// The frames of `characters`, one after the other.
pub open spec fn character_frames(characters: Seq<Character>, names: Seq<MapName>) -> Seq<u8>
    decreases characters.len(),
{
    if characters.len() == 0 {
        Seq::<u8>::empty()
    } else {
        character_frames(characters.drop_last(), names) + characters.last().frame(names)
    }
}

/// `n` character frames are `155 * n` bytes long.
pub proof fn lemma_character_frames_len(characters: Seq<Character>, names: Seq<MapName>)
    ensures
        character_frames(characters, names).len() == 155 * characters.len(),
    decreases characters.len(),
{
    if characters.len() > 0 {
        lemma_character_frames_len(characters.drop_last(), names);
        lemma_frame_len(
            characters.last()@,
            crate::character::frame::map_name_of(characters.last()@, names),
        );
    }
}

/// Body of the slot count: the frame's size of 29, the slot counters, and
/// 20 unused bytes.
pub open spec fn slot_count_body() -> Seq<u8> {
    le16(29) + seq![12u8, 12u8, 0u8, 12u8, 12u8] + zeros(20)
}

/// Body of the character list that follows a connect: the frame's size,
/// four slot counters, 20 unused bytes, and the character frames.
pub open spec fn info_body(characters: Seq<Character>, names: Seq<MapName>) -> Seq<u8> {
    le16((28 + 155 * characters.len()) as u16) + seq![12u8, 12u8, 12u8, 12u8] + zeros(20)
        + character_frames(characters, names)
}

/// What follows the frames of exactly three characters: the opcode and 4.
pub open spec fn list_trailer(count: nat) -> Seq<u8> {
    if count == 3 {
        le16(0x99d) + le16(4)
    } else {
        Seq::<u8>::empty()
    }
}

/// Body of the character list: the frame's size, the character frames, and
/// the trailer.
pub open spec fn list_body(characters: Seq<Character>, names: Seq<MapName>) -> Seq<u8> {
    le16((4 + 155 * characters.len() + list_trailer(characters.len()).len()) as u16)
        + character_frames(characters, names) + list_trailer(characters.len())
}

/// Body of the pincode state: the seed, the account and the state.
pub open spec fn pincode_body(info: PincodeInfo) -> Seq<u8> {
    le32(info.seed) + le32(info.account_id) + le16(info.status.value())
}

impl Response {
    /// The opcode of this response, if it has one.
    pub open spec fn code(&self) -> Option<u16> {
        match self {
            Response::AccountConnected(_) => None,
            Response::Rejected => Some(0x6c),
            Response::CharacterSlotCount => Some(0x82d),
            Response::CharacterInfo(_) => Some(0x6b),
            Response::Characters(_) => Some(0x99d),
            Response::CharacterPagesAvailable(_) => Some(0x9a0),
            Response::BannedCharacters => Some(0x20d),
            Response::PincodeInfo(_) => Some(0x8b9),
            Response::NewCharacterInfo(_) => Some(0x6d),
        }
    }

    /// A list of characters is no longer than an account may have.
    pub open spec fn fits(&self) -> bool {
        match self {
            Response::CharacterInfo(characters) => characters@.len()
                <= MAX_CHARACTERS_PER_ACCOUNT,
            Response::Characters(characters) => characters@.len() <= MAX_CHARACTERS_PER_ACCOUNT,
            _ => true,
        }
    }

    /// The bytes that follow the opcode.
    pub open spec fn body(&self, names: Seq<MapName>) -> Seq<u8> {
        match self {
            Response::AccountConnected(account_id) => le32(*account_id),
            Response::Rejected => seq![0u8],
            Response::CharacterSlotCount => slot_count_body(),
            Response::CharacterInfo(characters) => info_body(characters@, names),
            Response::Characters(characters) => list_body(characters@, names),
            Response::CharacterPagesAvailable(count) => le32(*count),
            Response::BannedCharacters => le16(4),
            Response::PincodeInfo(info) => pincode_body(*info),
            Response::NewCharacterInfo(character) => character.frame(names),
        }
    }

    /// The opcode of this response, if it has one.
    pub fn command_code(&self) -> (code: Option<u16>)
        ensures
            code == self.code(),
    {
        match self {
            Response::AccountConnected(_) => None,
            Response::Rejected => Some(0x6c),
            Response::CharacterSlotCount => Some(0x82d),
            Response::CharacterInfo(_) => Some(0x6b),
            Response::Characters(_) => Some(0x99d),
            Response::CharacterPagesAvailable(_) => Some(0x9a0),
            Response::BannedCharacters => Some(0x20d),
            Response::PincodeInfo(_) => Some(0x8b9),
            Response::NewCharacterInfo(_) => Some(0x6d),
        }
    }

    /// Whether a list of characters is no longer than an account may have.
    pub fn is_fitting(&self) -> (yes: bool)
        ensures
            yes == self.fits(),
    {
        match self {
            Response::CharacterInfo(characters) => characters.len() <= MAX_CHARACTERS_PER_ACCOUNT,
            Response::Characters(characters) => characters.len() <= MAX_CHARACTERS_PER_ACCOUNT,
            _ => true,
        }
    }

    /// Number of bytes in the body of this response.
    pub open spec fn body_len(&self) -> nat {
        match self {
            Response::AccountConnected(_) => 4,
            Response::Rejected => 1,
            Response::CharacterSlotCount => 27,
            Response::CharacterInfo(characters) => 26 + 155 * characters@.len(),
            Response::Characters(characters) => 2 + 155 * characters@.len() + list_trailer(
                characters@.len(),
            ).len(),
            Response::CharacterPagesAvailable(_) => 4,
            Response::BannedCharacters => 2,
            Response::PincodeInfo(_) => 10,
            Response::NewCharacterInfo(_) => 155,
        }
    }

    /// Number of bytes in the body of this response.
    pub fn body_size(&self) -> (n: usize)
        requires
            self.fits(),
        ensures
            n == self.body_len(),
            n <= 1886,
    {
        match self {
            Response::AccountConnected(_) => 4,
            Response::Rejected => 1,
            Response::CharacterSlotCount => 27,
            Response::CharacterInfo(characters) => 26 + 155 * characters.len(),
            Response::Characters(characters) => {
                let trailer: usize = if characters.len() == 3 { 4 } else { 0 };
                2 + 155 * characters.len() + trailer
            },
            Response::CharacterPagesAvailable(_) => 4,
            Response::BannedCharacters => 2,
            Response::PincodeInfo(_) => 10,
            Response::NewCharacterInfo(_) => 155,
        }
    }

    /// Appends the body of this response.
    pub(crate) fn encode_body(&self, codec: &mut ClientTcpCodec<'_>, maps: &Maps)
        requires
            self.fits(),
            old(codec).wf(),
            old(codec).room() >= self.body_len(),
        ensures
            final(codec).wf(),
            final(codec).written() == old(codec).written() + self.body(maps.names()),
            final(codec).cursor == old(codec).cursor + self.body_len(),
            final(codec).kept(old(codec).buf@),
            final(final(codec).buf)@ == final(old(codec).buf)@,
    {
        match self {
            Response::AccountConnected(account_id) => {
                codec.encode_u32(*account_id);
            },
            Response::Rejected => {
                codec.encode_u8(0);
                assert(codec.written() =~= old(codec).written() + seq![0u8]);
            },
            Response::CharacterSlotCount => {
                encode_slot_count(codec);
            },
            Response::CharacterInfo(characters) => {
                encode_info(characters, codec, maps);
            },
            Response::Characters(characters) => {
                encode_list(characters, codec, maps);
            },
            Response::CharacterPagesAvailable(count) => {
                codec.encode_u32(*count);
            },
            Response::BannedCharacters => {
                codec.encode_u16(4);
            },
            Response::PincodeInfo(info) => {
                encode_pincode(info, codec);
            },
            Response::NewCharacterInfo(character) => {
                character.encode(codec, maps);
            },
        }
    }

    /// Writes the body of this response to the start of `buf`, or reports
    /// the size it needs and writes nothing. The names of maps are taken
    /// from `maps`.
    pub fn serialize(&self, buf: &mut [u8], maps: &Maps) -> (r: Result<usize, usize>)
        requires
            self.fits(),
        ensures
            serialized(old(buf)@, final(buf)@, self.body(maps.names()), r),
    {
        let size = self.body_size();
        proof {
            self.lemma_body_len(maps.names());
        }
        if buf.len() < size {
            return Err(size);
        }
        let mut codec = ClientTcpCodec::new(buf);
        self.encode_body(&mut codec, maps);
        assert(codec.written() =~= self.body(maps.names()));
        Ok(size)
    }

    /// The body of a response has the length that `body_len` gives.
    pub proof fn lemma_body_len(&self, names: Seq<MapName>)
        ensures
            self.body(names).len() == self.body_len(),
    {
        match self {
            Response::AccountConnected(account_id) => {
                assert(le32(*account_id).len() == 4);
            },
            Response::Rejected => {},
            Response::CharacterSlotCount => {
                lemma_slot_count_len();
            },
            Response::CharacterInfo(characters) => {
                lemma_info_body_len(characters@, names);
            },
            Response::Characters(characters) => {
                lemma_list_body_len(characters@, names);
            },
            Response::CharacterPagesAvailable(count) => {
                assert(le32(*count).len() == 4);
            },
            Response::BannedCharacters => {
                assert(le16(4).len() == 2);
            },
            Response::PincodeInfo(info) => {
                lemma_pincode_len(*info);
            },
            Response::NewCharacterInfo(character) => {
                lemma_frame_len(
                    character@,
                    crate::character::frame::map_name_of(character@, names),
                );
            },
        }
    }
}

proof fn lemma_slot_count_len()
    ensures
        slot_count_body().len() == 27,
{
    assert(le16(29).len() == 2);
}

proof fn lemma_pincode_len(info: PincodeInfo)
    ensures
        pincode_body(info).len() == 10,
{
    assert(le32(info.seed).len() == 4);
    assert(le32(info.account_id).len() == 4);
    assert(le16(info.status.value()).len() == 2);
}

proof fn lemma_info_body_len(characters: Seq<Character>, names: Seq<MapName>)
    ensures
        info_body(characters, names).len() == 26 + 155 * characters.len(),
{
    lemma_character_frames_len(characters, names);
    assert(le16((28 + 155 * characters.len()) as u16).len() == 2);
}

proof fn lemma_list_body_len(characters: Seq<Character>, names: Seq<MapName>)
    ensures
        list_body(characters, names).len() == 2 + 155 * characters.len() + list_trailer(
            characters.len(),
        ).len(),
{
    lemma_character_frames_len(characters, names);
    assert(le16(
        (4 + 155 * characters.len() + list_trailer(characters.len()).len()) as u16,
    ).len() == 2);
}

fn encode_slot_count(codec: &mut ClientTcpCodec<'_>)
    requires
        old(codec).wf(),
        old(codec).room() >= 27,
    ensures
        final(codec).wf(),
        final(codec).written() == old(codec).written() + slot_count_body(),
        final(codec).cursor == old(codec).cursor + 27,
        final(codec).kept(old(codec).buf@),
        final(final(codec).buf)@ == final(old(codec).buf)@,
{
    codec.encode_u16(29);
    codec.encode_u8(12);
    codec.encode_u8(12);
    codec.encode_u8(0);
    codec.encode_u8(12);
    codec.encode_u8(12);
    codec.padding(20);
    assert(codec.written() =~= old(codec).written() + slot_count_body());
}

fn encode_pincode(info: &PincodeInfo, codec: &mut ClientTcpCodec<'_>)
    requires
        old(codec).wf(),
        old(codec).room() >= 10,
    ensures
        final(codec).wf(),
        final(codec).written() == old(codec).written() + pincode_body(*info),
        final(codec).cursor == old(codec).cursor + 10,
        final(codec).kept(old(codec).buf@),
        final(final(codec).buf)@ == final(old(codec).buf)@,
{
    codec.encode_u32(info.seed);
    codec.encode_u32(info.account_id);
    codec.encode_u16(info.status.int_value());
    assert(codec.written() =~= old(codec).written() + pincode_body(*info));
}

fn encode_info(characters: &Vec<Character>, codec: &mut ClientTcpCodec<'_>, maps: &Maps)
    requires
        characters@.len() <= MAX_CHARACTERS_PER_ACCOUNT,
        old(codec).wf(),
        old(codec).room() >= 26 + 155 * characters@.len(),
    ensures
        final(codec).wf(),
        final(codec).written() == old(codec).written() + info_body(characters@, maps.names()),
        final(codec).cursor == old(codec).cursor + 26 + 155 * characters@.len(),
        final(codec).kept(old(codec).buf@),
        final(final(codec).buf)@ == final(old(codec).buf)@,
{
    let size: usize = 28 + 155 * characters.len();
    codec.encode_u16(size as u16);
    codec.encode_u8(12);
    codec.encode_u8(12);
    codec.encode_u8(12);
    codec.encode_u8(12);
    codec.padding(20);
    let ghost start = old(codec).written();
    let ghost head = le16((28 + 155 * characters@.len()) as u16) + seq![12u8, 12u8, 12u8, 12u8]
        + zeros(20);
    assert(codec.written() =~= start + head);
    encode_characters(characters, codec, maps);
    proof {
        let frames = character_frames(characters@, maps.names());
        assert(start + head + frames =~= start + (head + frames));
    }
}

fn encode_list(characters: &Vec<Character>, codec: &mut ClientTcpCodec<'_>, maps: &Maps)
    requires
        characters@.len() <= MAX_CHARACTERS_PER_ACCOUNT,
        old(codec).wf(),
        old(codec).room() >= 2 + 155 * characters@.len() + list_trailer(characters@.len()).len(),
    ensures
        final(codec).wf(),
        final(codec).written() == old(codec).written() + list_body(characters@, maps.names()),
        final(codec).cursor == old(codec).cursor + 2 + 155 * characters@.len() + list_trailer(
            characters@.len(),
        ).len(),
        final(codec).kept(old(codec).buf@),
        final(final(codec).buf)@ == final(old(codec).buf)@,
{
    let trailer: usize = if characters.len() == 3 { 4 } else { 0 };
    let size: usize = 4 + 155 * characters.len() + trailer;
    let ghost start = codec.written();
    let ghost names = maps.names();
    let ghost head = le16((4 + 155 * characters@.len() + list_trailer(characters@.len()).len()) as u16);
    codec.encode_u16(size as u16);
    assert(codec.written() == start + head);
    encode_characters(characters, codec, maps);
    assert(codec.written() == start + head + character_frames(characters@, names));
    encode_trailer(characters.len(), codec);
    proof {
        lemma_character_frames_len(characters@, names);
        let frames = character_frames(characters@, names);
        let tail = list_trailer(characters@.len());
        assert(start + head + frames + tail =~= start + (head + frames + tail));
    }
}

fn encode_trailer(count: usize, codec: &mut ClientTcpCodec<'_>)
    requires
        old(codec).wf(),
        old(codec).room() >= list_trailer(count as nat).len(),
    ensures
        final(codec).wf(),
        final(codec).written() == old(codec).written() + list_trailer(count as nat),
        final(codec).cursor == old(codec).cursor + list_trailer(count as nat).len(),
        final(codec).kept(old(codec).buf@),
        final(final(codec).buf)@ == final(old(codec).buf)@,
{
    if count == 3 {
        assert(le16(0x99d).len() == 2 && le16(4).len() == 2);
        codec.encode_u16(0x99d);
        codec.encode_u16(4);
        assert(codec.written() =~= old(codec).written() + list_trailer(count as nat));
    } else {
        assert(codec.written() =~= old(codec).written() + list_trailer(count as nat));
    }
}

/// Appends the frames of `characters`.
fn encode_characters(characters: &Vec<Character>, codec: &mut ClientTcpCodec<'_>, maps: &Maps)
    requires
        old(codec).wf(),
        old(codec).room() >= 155 * characters@.len(),
    ensures
        final(codec).wf(),
        final(codec).written() == old(codec).written() + character_frames(
            characters@,
            maps.names(),
        ),
        final(codec).cursor == old(codec).cursor + 155 * characters@.len(),
        final(codec).kept(old(codec).buf@),
        final(final(codec).buf)@ == final(old(codec).buf)@,
{
    let ghost names = maps.names();
    let mut i: usize = 0;
    assert(codec.written() =~= old(codec).written() + character_frames(
        characters@.take(0),
        names,
    ));
    while i < characters.len()
        invariant
            i <= characters@.len(),
            names == maps.names(),
            old(codec).wf(),
            old(codec).room() >= 155 * characters@.len(),
            codec.wf(),
            codec.cursor == old(codec).cursor + 155 * i,
            codec.kept(old(codec).buf@),
            codec.written() == old(codec).written() + character_frames(
                characters@.take(i as int),
                names,
            ),
            final(codec.buf)@ == final(old(codec).buf)@,
        decreases characters@.len() - i,
    {
        characters[i].encode(codec, maps);
        proof {
            assert(characters@.take(i + 1).drop_last() =~= characters@.take(i as int));
            assert(characters@.take(i + 1).last() == characters@[i as int]);
            assert(codec.written() =~= old(codec).written() + character_frames(
                characters@.take(i + 1),
                names,
            ));
        }
        i = i + 1;
    }
    assert(characters@.take(characters@.len() as int) =~= characters@);
}

} // verus!
