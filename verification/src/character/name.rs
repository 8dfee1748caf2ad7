//! The name of a character.

use vstd::prelude::*;
use vstd::slice::slice_subrange;
use vstd::string::*;
use vstd::utf8::encode_utf8;
use crate::codec::{fill_padded, lemma_padded_len, padded, EncodeFixed};
use crate::error::PacketError;
use crate::text::{cstr, wire_text, string_from_bytes, text_bytes};

verus! {

/// The name of a character, as text.
#[derive(Debug, Default)]
pub struct CharacterName(pub String);

impl View for CharacterName {
    type V = Seq<char>;

    open spec fn view(&self) -> Seq<char> {
        self.0@
    }
}

impl Clone for CharacterName {
    fn clone(&self) -> (copy: Self)
        ensures
            copy == *self,
    {
        CharacterName(self.0.clone())
    }
}

/// The text of the name field at the start of `value`.
pub open spec fn name_text(value: Seq<u8>) -> Seq<u8> {
    cstr(value.subrange(0, 24))
}

/// The 24 bytes that stand for a name on the wire: its bytes, cut or
/// zero-padded.
pub open spec fn name_wire(name: Seq<char>) -> Seq<u8> {
    padded(encode_utf8(name), 24)
}

impl CharacterName {
    /// Width of a name on the wire.
    pub const SIZE: usize = 24;

    /// The empty name, which a character has until it is given one.
    pub fn empty() -> (name: CharacterName)
        ensures
            name@ == Seq::<char>::empty(),
    {
        CharacterName(String::new())
    }

    /// The name with the text `text`.
    pub fn from_string(text: String) -> (name: CharacterName)
        ensures
            name@ == text@,
    {
        CharacterName(text)
    }

    /// Reads the name field at the start of `value`: the text before its
    /// first zero byte. Fewer than 24 bytes are `PacketIncomplete(24)`.
    pub fn try_from(value: &[u8]) -> (r: Result<CharacterName, PacketError>)
        ensures
            value@.len() < 24 ==> r == Err::<CharacterName, PacketError>(
                PacketError::PacketIncomplete(24),
            ),
            value@.len() >= 24 ==> (r matches Ok(name) && name@ == wire_text(name_text(value@))),
    {
        if value.len() < 24 {
            return Err(PacketError::PacketIncomplete(24));
        }
        let text = text_bytes(slice_subrange(value, 0, 24));
        Ok(CharacterName(string_from_bytes(text)))
    }

    /// A name is valid when it is not empty.
    pub open spec fn is_valid(&self) -> bool {
        self@.len() > 0
    }

    /// Whether the name is valid: not empty.
    pub fn check_valid(&self) -> (yes: bool)
        ensures
            yes == self.is_valid(),
    {
        !self.0.as_str().is_empty()
    }

    /// The name as bytes.
    pub fn as_bytes(&self) -> (bytes: &[u8])
        ensures
            bytes@ == encode_utf8(self@),
    {
        self.0.as_str().as_bytes()
    }
}

impl EncodeFixed for CharacterName {
    open spec fn wire(&self) -> Seq<u8> {
        name_wire(self@)
    }

    fn size(&self) -> (n: usize) {
        proof {
            lemma_padded_len(encode_utf8(self@), 24);
        }
        24
    }

    fn encode(&self, buf: &mut [u8]) {
        proof {
            lemma_padded_len(encode_utf8(self@), 24);
        }
        fill_padded(buf, self.as_bytes());
    }
}

} // verus!
