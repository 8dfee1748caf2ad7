//! Framing of the character protocol: an opcode of two bytes, then the
//! body. One response, the account id that answers a connect, has no
//! opcode.

use vstd::prelude::*;
use vstd::slice::slice_subrange;
use vstd::string::*;
use crate::character::request::{parsed, CharacterCommand, Request, RequestView};
use crate::character::response::Response;
use crate::codec::{encoded, le16, ClientTcpCodec, DecodeResult, EncodeResult};
use crate::error::{PacketError, PacketErrorView};
use crate::map::{MapName, Maps};
use crate::utils::{parse_word, word_of};

verus! {

/// The codec of one connection. It holds the table of map names, which the
/// frames of characters draw on.
pub struct CharacterCodec {
    pub maps: Maps,
}

/// What decoding the start of a byte stream gives: the number of bytes to
/// drop from the stream, and the request, the wish for more bytes, or the
/// error that ends the connection.
pub open spec fn decode_spec(buffer: Seq<u8>) -> (nat, DecodeResult<RequestView, PacketErrorView>) {
    if buffer.len() < 2 {
        (0, DecodeResult::UnexpectedEnd)
    } else {
        match CharacterCommand::of_code(word_of(buffer)) {
            None => (0, DecodeResult::Failed(PacketErrorView::InvalidCommand(word_of(buffer)))),
            Some(command) => match command.parse_spec(buffer.subrange(2, buffer.len() as int)) {
                Ok((n, request)) => (n + 2, DecodeResult::Item(request)),
                Err(PacketErrorView::PacketIncomplete(_)) => (0, DecodeResult::UnexpectedEnd),
                Err(e) => (0, DecodeResult::Failed(e)),
            },
        }
    }
}

/// The view of a decoding result.
pub open spec fn decoded(r: (usize, DecodeResult<Request, PacketError>)) -> (
    nat,
    DecodeResult<RequestView, PacketErrorView>,
) {
    (
        r.0 as nat,
        match r.1 {
            DecodeResult::Item(request) => DecodeResult::Item(request@),
            DecodeResult::UnexpectedEnd => DecodeResult::UnexpectedEnd,
            DecodeResult::Failed(e) => DecodeResult::Failed(e@),
        },
    )
}

impl Response {
    /// The whole frame of this response: the opcode, if it has one, then
    /// the body.
    pub open spec fn frame(&self, names: Seq<MapName>) -> Seq<u8> {
        match self.code() {
            Some(code) => le16(code) + self.body(names),
            None => self.body(names),
        }
    }
}

impl CharacterCodec {
    /// A codec that draws map names from `maps`.
    pub fn new(maps: Maps) -> (codec: CharacterCodec)
        ensures
            codec.maps == maps,
    {
        CharacterCodec { maps }
    }

    /// Decodes the request at the start of `buffer`. Returns the number of
    /// bytes that the request took, which is 0 unless a request is
    /// returned.
    pub fn decode(&mut self, buffer: &[u8]) -> (r: (usize, DecodeResult<Request, PacketError>))
        ensures
            decoded(r) == decode_spec(buffer@),
            *final(self) == *old(self),
    {
        if buffer.len() < 2 {
            return (0, DecodeResult::UnexpectedEnd);
        }
        let command = match CharacterCommand::try_from(parse_word(buffer)) {
            Ok(command) => command,
            Err(err) => {
                return (0, DecodeResult::Failed(err));
            },
        };
        let r = command.parse(slice_subrange(buffer, 2, buffer.len()));
        proof {
            assert(parsed(r) == command.parse_spec(buffer@.subrange(2, buffer@.len() as int)));
        }
        match r {
            Ok((size, request)) => (size + 2, DecodeResult::Item(request)),
            Err(PacketError::PacketIncomplete(_)) => (0, DecodeResult::UnexpectedEnd),
            Err(err) => (0, DecodeResult::Failed(err)),
        }
    }

    /// Writes the frame of `item` to the start of `buf`. A buffer that is
    /// too small is left as it was. A list of more characters than an
    /// account may have is refused.
    pub fn encode(&mut self, item: &Response, buf: &mut [u8]) -> (r: EncodeResult<PacketError>)
        ensures
            *final(self) == *old(self),
            !item.fits() ==> (r matches EncodeResult::Failed(PacketError::InvalidRequest(reason))
                && reason@ == "Too many characters"@) && final(buf)@ == old(buf)@,
            item.fits() ==> encoded(old(buf)@, final(buf)@, item.frame(old(self).maps.names()), r),
    {
        if !item.is_fitting() {
            return EncodeResult::Failed(
                PacketError::InvalidRequest(String::from_str("Too many characters")),
            );
        }
        let code = item.command_code();
        let body = item.body_size();
        proof {
            item.lemma_body_len(self.maps.names());
        }
        let needed: usize = match code {
            Some(_) => body + 2,
            None => body,
        };
        if buf.len() < needed {
            return EncodeResult::Overflow(needed);
        }
        let mut codec = ClientTcpCodec::new(buf);
        match code {
            Some(code) => {
                codec.encode_u16(code);
            },
            None => {},
        }
        item.encode_body(&mut codec, &self.maps);
        assert(codec.written() =~= item.frame(self.maps.names()));
        EncodeResult::Written(needed)
    }
}

} // verus!
