//! Framing of the login protocol: an opcode of two bytes, then the body.

use vstd::prelude::*;
use vstd::slice::slice_subrange;
use crate::codec::{encoded, le16, DecodeResult, EncodeResult};
use crate::login::error::Error;
use crate::login::request::{parsed, LoginCommand, Request, RequestView};
use crate::login::response::{lemma_success_body_len, Response};
use crate::utils::{parse_word, word_of};

verus! {

/// The codec of the login protocol. It has no state.
pub struct LoginCodec;

/// What decoding the start of a byte stream gives: the number of bytes to
/// drop from the stream, and the request, the wish for more bytes, or the
/// error that ends the connection.
pub open spec fn decode_spec(buffer: Seq<u8>) -> (nat, DecodeResult<RequestView, Error>) {
    if buffer.len() < 2 {
        (0, DecodeResult::UnexpectedEnd)
    } else {
        match LoginCommand::of_code(word_of(buffer)) {
            None => (0, DecodeResult::Failed(Error::InvalidCommand(word_of(buffer)))),
            Some(command) => match command.parse_spec(buffer.subrange(2, buffer.len() as int)) {
                Ok((n, request)) => (n + 2, DecodeResult::Item(request)),
                Err(Error::PacketIncomplete(_)) => (0, DecodeResult::UnexpectedEnd),
                Err(e) => (0, DecodeResult::Failed(e)),
            },
        }
    }
}

/// The view of a decoding result.
pub open spec fn decoded(r: (usize, DecodeResult<Request, Error>)) -> (
    nat,
    DecodeResult<RequestView, Error>,
) {
    (
        r.0 as nat,
        match r.1 {
            DecodeResult::Item(request) => DecodeResult::Item(request@),
            DecodeResult::UnexpectedEnd => DecodeResult::UnexpectedEnd,
            DecodeResult::Failed(e) => DecodeResult::Failed(e),
        },
    )
}

impl Response {
    /// The whole frame of this response: the opcode, then the body.
    pub open spec fn frame(&self) -> Seq<u8> {
        le16(self.code()) + self.body()
    }

    /// Number of bytes in the body of this response.
    pub fn body_size(&self) -> (n: usize)
        requires
            !(self is LoginSuccessV1),
        ensures
            n == self.body().len(),
            n <= 862,
    {
        match self {
            Response::LoginSuccessV1(_) => 0,
            Response::LoginSuccessV3(info) => {
                let count = info.char_servers.len();
                proof {
                    lemma_success_body_len(*info);
                }
                62 + 160 * count
            },
            Response::LoginFailed(_) => 24,
            Response::LoginAborted(_) => 1,
        }
    }
}

impl LoginCodec {
    /// Decodes the request at the start of `buffer`. Returns the number of
    /// bytes that the request took, which is 0 unless a request is
    /// returned.
    pub fn decode(&mut self, buffer: &[u8]) -> (r: (usize, DecodeResult<Request, Error>))
        ensures
            decoded(r) == decode_spec(buffer@),
    {
        if buffer.len() < 2 {
            return (0, DecodeResult::UnexpectedEnd);
        }
        let command = match LoginCommand::try_from(parse_word(buffer)) {
            Ok(command) => command,
            Err(err) => {
                return (0, DecodeResult::Failed(err));
            },
        };
        let r = command.parse(slice_subrange(buffer, 2, buffer.len()));
        proof {
            assert(parsed(r) == command.parse_spec(buffer@.subrange(2, buffer@.len() as int)));
        }
        match r {
            Ok((size, request)) => (size + 2, DecodeResult::Item(request)),
            Err(Error::PacketIncomplete(_)) => (0, DecodeResult::UnexpectedEnd),
            Err(err) => (0, DecodeResult::Failed(err)),
        }
    }

    /// Writes the frame of `item` to the start of `buf`. A buffer that is
    /// too small is left as it was. `LoginSuccessV1`, which has no wire
    /// form, is refused.
    pub fn encode(&mut self, item: &Response, buf: &mut [u8]) -> (r: EncodeResult<Error>)
        ensures
            item is LoginSuccessV1 ==> r == EncodeResult::<Error>::Failed(
                Error::InvalidCommand(0x69),
            ) && final(buf)@ == old(buf)@,
            !(item is LoginSuccessV1) ==> encoded(old(buf)@, final(buf)@, item.frame(), r),
    {
        if let Response::LoginSuccessV1(_) = item {
            return EncodeResult::Failed(Error::InvalidCommand(0x69));
        }
        let needed = item.body_size() + 2;
        if buf.len() < needed {
            return EncodeResult::Overflow(needed);
        }
        let code = item.command_code();
        let ghost before = buf@;
        let (head, tail) = buf.split_at_mut(2);
        head[0] = (code % 256) as u8;
        head[1] = (code / 256) as u8;
        assert(head@ =~= le16(code));
        let ghost tail_before = tail@;
        match item.serialize(tail) {
            Ok(size) => {
                proof {
                    let after = head@ + tail@;
                    assert(after.subrange(0, size + 2) =~= item.frame());
                    assert forall|i: int| size + 2 <= i < before.len() implies after[i]
                        == before[i] by {
                        assert(after[i] == tail@[i - 2]);
                        assert(tail_before[i - 2] == before[i]);
                    }
                }
                EncodeResult::Written(size + 2)
            },
            Err(size) => EncodeResult::Overflow(size + 2),
        }
    }
}

} // verus!
