//! What holds of the character protocol's decoder on every input.

use vstd::prelude::*;
use vstd::utf8::{decode_utf8, decode_utf8_encode_utf8, valid_utf8};
use crate::account::mmo_account::{lemma_sex_roundtrip, Sex};
use crate::character::attributes::{lemma_class_roundtrip, Class};
use crate::character::codec::decode_spec;
use crate::character::name::{name_text, name_wire};
use crate::character::request::{request_body, request_frame, CharacterCommand, RequestView};
use crate::codec::{
    le16, lemma_long_bytes, lemma_word_bytes, lemma_word_roundtrip, padded, zeros,
    DecodeResult,
};
use crate::error::PacketErrorView;
use crate::text::{is_canonical, wire_text};
use crate::utils::word_of;

verus! {

/// Decoding is prefix-stable: bytes that decode to a request decode to the
/// same request, with the same length, whatever is appended to them.
pub proof fn lemma_decode_prefix_stable(frame: Seq<u8>, suffix: Seq<u8>)
    requires
        decode_spec(frame).1 is Item,
    ensures
        decode_spec(frame + suffix) == decode_spec(frame),
{
    let longer = frame + suffix;
    assert(frame.len() >= 2);
    assert(longer[0] == frame[0] && longer[1] == frame[1]);
    let command = CharacterCommand::of_code(word_of(frame))->0;
    let n = command.body_len() as int;
    let rest = frame.subrange(2, frame.len() as int);
    let longer_rest = longer.subrange(2, longer.len() as int);
    assert(rest.len() >= n);
    assert(longer_rest.subrange(0, n) =~= rest.subrange(0, n));
}

/// A request takes exactly the opcode and the body that its opcode
/// declares.
pub proof fn lemma_decode_consumes_frame(buffer: Seq<u8>)
    requires
        decode_spec(buffer).1 is Item,
    ensures
        CharacterCommand::of_code(word_of(buffer)) matches Some(command) && decode_spec(buffer).0
            == 2 + command.body_len(),
        decode_spec(buffer).0 <= buffer.len(),
{
}

/// Bytes that are shorter than the frame that their opcode declares ask for
/// more bytes, and none is taken.
pub proof fn lemma_short_buffer_waits(buffer: Seq<u8>)
    requires
        buffer.len() < 2 || (CharacterCommand::of_code(word_of(buffer)) matches Some(command)
            && buffer.len() < 2 + command.body_len()),
    ensures
        decode_spec(buffer) == (0nat, DecodeResult::<RequestView, PacketErrorView>::UnexpectedEnd),
{
}

/// An opcode that is not of the protocol is a fatal error, and no byte is
/// taken.
pub proof fn lemma_invalid_opcode_fails(buffer: Seq<u8>)
    requires
        buffer.len() >= 2,
        CharacterCommand::of_code(word_of(buffer)) is None,
    ensures
        decode_spec(buffer) == (
            0nat,
            DecodeResult::<RequestView, PacketErrorView>::Failed(
                PacketErrorView::InvalidCommand(word_of(buffer)),
            ),
        ),
{
}

/// What parsing the bytes after an opcode may answer, for every command and
/// every bytes: a request that took exactly the declared body, which was
/// there; the number of bytes that are missing, which is not 0; or the
/// refusal of a sex byte other than 0, 1 and 2 or of a class number that
/// stands for no class. A name is never refused, and every command parses.
pub proof fn lemma_parse_outcomes(command: CharacterCommand, buf: Seq<u8>)
    ensures
        match command.parse_spec(buf) {
            Ok((n, _)) => n == command.body_len() && n <= buf.len(),
            Err(PacketErrorView::PacketIncomplete(missing)) => missing > 0 && buf.len() + missing
                == command.body_len(),
            Err(PacketErrorView::InvalidRequest(reason)) => {
                &&& buf.len() >= command.body_len()
                &&& command is ConnectClient || command is CreateCharacter
                &&& command is ConnectClient ==> buf[14] > 2 && reason == "Invalid sex"@
                &&& command is CreateCharacter ==> {
                    ||| Class::of_int(word_of(buf.subrange(29, 31))) is None && reason
                        == "Invalid class"@
                    ||| buf[33] > 2 && reason == "Invalid sex"@
                }
            },
            Err(PacketErrorView::InvalidCommand(_)) => false,
        },
{
    let body = buf.subrange(0, command.body_len() as int);
    if buf.len() >= command.body_len() {
        match command {
            CharacterCommand::ConnectClient => {
                assert(body[14] == buf[14]);
            },
            CharacterCommand::CreateCharacter => {
                assert(body[33] == buf[33]);
                assert(body.subrange(29, 31) =~= buf.subrange(29, 31));
            },
            _ => {},
        }
    }
}

/// A complete frame whose sex byte is none of 0, 1 and 2 is a fatal error.
pub proof fn lemma_invalid_sex_fails(buffer: Seq<u8>)
    requires
        buffer.len() >= 17,
        word_of(buffer) == 0x65,
        buffer[16] > 2,
    ensures
        decode_spec(buffer) == (
            0nat,
            DecodeResult::<RequestView, PacketErrorView>::Failed(
                PacketErrorView::InvalidRequest("Invalid sex"@),
            ),
        ),
{
    let body = buffer.subrange(2, buffer.len() as int).subrange(0, 15);
    assert(body[14] == buffer[16]);
}

/// A body is well formed when its fields hold values that are allowed and
/// the bytes that the decoder ignores are zero.
pub open spec fn well_formed(command: CharacterCommand, body: Seq<u8>) -> bool {
    &&& body.len() == command.body_len()
    &&& match command {
        CharacterCommand::ConnectClient => {
            &&& body.subrange(12, 14) == zeros(2)
            &&& body[14] <= 2
        },
        CharacterCommand::CreateCharacter => {
            &&& is_canonical(body.subrange(0, 24))
            &&& valid_utf8(name_text(body))
            &&& Class::of_int(word_of(body.subrange(29, 31))) is Some
            &&& body.subrange(31, 33) == zeros(2)
            &&& body[33] <= 2
        },
        CharacterCommand::KeepAlive => body == zeros(4),
        _ => true,
    }
}

/// Decoding a frame with a well-formed body and encoding the request again
/// gives the frame.
pub proof fn lemma_decode_then_encode(code: u16, body: Seq<u8>)
    requires
        CharacterCommand::of_code(code) matches Some(command) && well_formed(command, body),
    ensures
        decode_spec(le16(code) + body).0 == 2 + body.len(),
        decode_spec(le16(code) + body).1 matches DecodeResult::Item(request) && request_frame(
            code,
            request,
        ) == le16(code) + body,
{
    let command = CharacterCommand::of_code(code)->0;
    let frame = le16(code) + body;
    lemma_word_roundtrip(code);
    assert(frame[0] == le16(code)[0] && frame[1] == le16(code)[1]);
    assert(word_of(frame) == code);
    let rest = frame.subrange(2, frame.len() as int);
    assert(rest =~= body);
    assert(rest.subrange(0, command.body_len() as int) =~= body);
    match command {
        CharacterCommand::ConnectClient => {
            lemma_connect_roundtrip(body);
        },
        CharacterCommand::CreateCharacter => {
            lemma_create_roundtrip(body);
        },
        CharacterCommand::SelectCharacter => {
            assert(seq![body[0]] =~= body);
        },
        CharacterCommand::KeepAlive => {},
        _ => {
            assert(body =~= Seq::<u8>::empty());
        },
    }
}

proof fn lemma_connect_roundtrip(body: Seq<u8>)
    requires
        well_formed(CharacterCommand::ConnectClient, body),
    ensures
        CharacterCommand::ConnectClient.request_of(body) matches Ok((n, request)) && n == 15
            && request_body(request) == body,
{
    lemma_sex_roundtrip(Sex::Male, body[14]);
    lemma_long_bytes(body.subrange(0, 4));
    lemma_long_bytes(body.subrange(4, 8));
    lemma_long_bytes(body.subrange(8, 12));
    let request = CharacterCommand::ConnectClient.request_of(body)->Ok_0.1;
    let made = request_body(request);
    assert(made.len() == 15);
    assert forall|i: int| 0 <= i < 15 implies made[i] == body[i] by {
        if i < 4 {
            assert(body.subrange(0, 4)[i] == body[i]);
        } else if i < 8 {
            assert(body.subrange(4, 8)[i - 4] == body[i]);
        } else if i < 12 {
            assert(body.subrange(8, 12)[i - 8] == body[i]);
        } else if i < 14 {
            assert(body.subrange(12, 14)[i - 12] == body[i]);
        }
    }
    assert(made =~= body);
}

proof fn lemma_create_roundtrip(body: Seq<u8>)
    requires
        well_formed(CharacterCommand::CreateCharacter, body),
    ensures
        CharacterCommand::CreateCharacter.request_of(body) matches Ok((n, request)) && n == 34
            && request_body(request) == body,
{
    lemma_sex_roundtrip(Sex::Male, body[33]);
    lemma_class_roundtrip(Class::Novice, word_of(body.subrange(29, 31)));
    lemma_word_bytes(body.subrange(25, 27));
    lemma_word_bytes(body.subrange(27, 29));
    lemma_word_bytes(body.subrange(29, 31));
    let text = name_text(body);
    decode_utf8_encode_utf8(text);
    assert(wire_text(text) == decode_utf8(text));
    assert(name_wire(wire_text(text)) == padded(text, 24));
    assert(padded(text, 24) == body.subrange(0, 24));
    let request = CharacterCommand::CreateCharacter.request_of(body)->Ok_0.1;
    let made = request_body(request);
    assert(made.len() == 34);
    assert forall|i: int| 0 <= i < 34 implies made[i] == body[i] by {
        if i < 24 {
            assert(body.subrange(0, 24)[i] == body[i]);
        } else if i < 25 {
        } else if i < 27 {
            assert(body.subrange(25, 27)[i - 25] == body[i]);
        } else if i < 29 {
            assert(body.subrange(27, 29)[i - 27] == body[i]);
        } else if i < 31 {
            assert(body.subrange(29, 31)[i - 29] == body[i]);
        } else if i < 33 {
            assert(body.subrange(31, 33)[i - 31] == body[i]);
        }
    }
    assert(made =~= body);
}

} // verus!
