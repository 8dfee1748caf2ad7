//! Fixed-width, zero-padded strings of the wire format. The text of a field
//! is what stands before its first zero byte; what follows is ignored.

use vstd::prelude::*;
use vstd::utf8::{decode_utf8, valid_utf8};
use crate::codec::{padded, zeros};

verus! {

/// The text that `String::from_utf8_lossy` makes of `bytes`.
pub uninterp spec fn lossy_text(bytes: Seq<u8>) -> Seq<char>;

/// The text that bytes of the wire stand for: what they encode where they
/// are valid UTF-8, and otherwise what `String::from_utf8_lossy` makes of
/// them.
pub open spec fn wire_text(bytes: Seq<u8>) -> Seq<char> {
    if valid_utf8(bytes) {
        decode_utf8(bytes)
    } else {
        lossy_text(bytes)
    }
}

/// `String::from_utf8_lossy`, made into an owned `String`: bytes that are
/// valid UTF-8 give the text they encode; in other bytes each invalid
/// sequence is replaced, so that the text still depends on the bytes alone.
#[verifier::external_body]
pub(crate) fn string_from_bytes(bytes: &[u8]) -> (text: String)
    ensures
        text@ == wire_text(bytes@),
        !valid_utf8(bytes@) ==> text@ == lossy_text(bytes@),
{
    String::from_utf8_lossy(bytes).into_owned()
}

/// Whether two byte strings are the same.
pub fn bytes_equal(a: &[u8], b: &[u8]) -> (same: bool)
    ensures
        same == (a@ == b@),
{
    if a.len() != b.len() {
        return false;
    }
    let mut i: usize = 0;
    while i < a.len()
        invariant
            i <= a@.len(),
            a@.len() == b@.len(),
            forall|j: int| 0 <= j < i ==> a@[j] == b@[j],
        decreases a@.len() - i,
    {
        if a[i] != b[i] {
            return false;
        }
        i = i + 1;
    }
    assert(a@ =~= b@);
    true
}

/// Index of the first zero byte of `s`, or its length if it holds none.
pub open spec fn nul_index(s: Seq<u8>) -> int
    decreases s.len(),
{
    if s.len() == 0 || s[0] == 0 {
        0
    } else {
        1 + nul_index(s.subrange(1, s.len() as int))
    }
}

/// The bytes of `s` before its first zero byte.
pub open spec fn cstr(s: Seq<u8>) -> Seq<u8> {
    s.subrange(0, nul_index(s))
}

/// A field is canonical when every byte after its first zero byte is zero.
pub open spec fn is_canonical(field: Seq<u8>) -> bool {
    field == padded(cstr(field), field.len())
}

/// `nul_index` lies inside the sequence, passes no zero byte and stops at one.
pub proof fn lemma_nul_index_bounds(s: Seq<u8>)
    ensures
        0 <= nul_index(s) <= s.len(),
        forall|j: int| 0 <= j < nul_index(s) ==> s[j] != 0,
        nul_index(s) < s.len() ==> s[nul_index(s)] == 0,
    decreases s.len(),
{
    if s.len() == 0 || s[0] == 0 {
    } else {
        let tail = s.subrange(1, s.len() as int);
        lemma_nul_index_bounds(tail);
        assert forall|j: int| 0 <= j < nul_index(s) implies s[j] != 0 by {
            if j > 0 {
                assert(tail[j - 1] == s[j]);
            }
        }
        if nul_index(s) < s.len() {
            assert(tail[nul_index(tail)] == s[nul_index(s)]);
        }
    }
}

/// The position that passes no zero byte and stops at one is `nul_index`.
pub proof fn lemma_nul_index_is(s: Seq<u8>, i: int)
    requires
        0 <= i <= s.len(),
        forall|j: int| 0 <= j < i ==> s[j] != 0,
        i == s.len() || s[i] == 0,
    ensures
        nul_index(s) == i,
    decreases s.len(),
{
    if s.len() == 0 || s[0] == 0 {
    } else {
        let tail = s.subrange(1, s.len() as int);
        assert forall|j: int| 0 <= j < i - 1 implies tail[j] != 0 by {
            assert(tail[j] == s[j + 1]);
        }
        if i - 1 < tail.len() {
            assert(tail[i - 1] == s[i]);
        }
        lemma_nul_index_is(tail, i - 1);
    }
}

/// The text of a field does not depend on what follows the field's first
/// zero byte, nor on anything appended to a field that holds one.
pub proof fn lemma_cstr_of_padded(text: Seq<u8>, width: nat)
    requires
        forall|j: int| 0 <= j < text.len() ==> text[j] != 0,
        text.len() <= width,
    ensures
        cstr(padded(text, width)) == text,
        is_canonical(padded(text, width)),
{
    let field = padded(text, width);
    assert(field.len() == width);
    lemma_nul_index_is(field, text.len() as int);
    assert(cstr(field) =~= text);
    assert(padded(cstr(field), field.len()) =~= field);
}

/// Length of the text at the start of `data`.
pub fn text_len(data: &[u8]) -> (n: usize)
    ensures
        n == nul_index(data@),
        n <= data@.len(),
{
    let mut i: usize = 0;
    while i < data.len() && data[i] != 0
        invariant
            i <= data@.len(),
            forall|j: int| 0 <= j < i ==> data@[j] != 0,
        decreases data@.len() - i,
    {
        i = i + 1;
    }
    proof {
        lemma_nul_index_is(data@, i as int);
    }
    i
}

/// The text at the start of `field`.
pub fn text_bytes(field: &[u8]) -> (text: &[u8])
    ensures
        text@ == cstr(field@),
{
    let n = text_len(field);
    vstd::slice::slice_subrange(field, 0, n)
}

/// Copies the text at the start of `string_bytes` to the start of `buffer`,
/// leaving the rest of `buffer` as it was.
pub fn copy_zero_terminated_buffer(buffer: &mut [u8], string_bytes: &[u8])
    requires
        nul_index(string_bytes@) <= old(buffer)@.len(),
    ensures
        final(buffer)@ == cstr(string_bytes@) + old(buffer)@.subrange(
            nul_index(string_bytes@),
            old(buffer)@.len() as int,
        ),
{
    let n = text_len(string_bytes);
    proof {
        lemma_nul_index_bounds(string_bytes@);
    }
    let mut i: usize = 0;
    while i < n
        invariant
            i <= n,
            n == nul_index(string_bytes@),
            n <= string_bytes@.len(),
            n <= buffer@.len(),
            buffer@.len() == old(buffer)@.len(),
            buffer@ == string_bytes@.subrange(0, i as int) + old(buffer)@.subrange(
                i as int,
                old(buffer)@.len() as int,
            ),
        decreases n - i,
    {
        buffer[i] = string_bytes[i];
        i = i + 1;
        assert(buffer@ =~= string_bytes@.subrange(0, i as int) + old(buffer)@.subrange(
            i as int,
            old(buffer)@.len() as int,
        ));
    }
}

/// A zeroed field of `width` bytes that receives the text of `field` is
/// that text, cut or zero-padded to `width`.
pub proof fn lemma_text_into_zeros(field: Seq<u8>, width: nat)
    requires
        nul_index(field) <= width,
    ensures
        cstr(field) + zeros(width).subrange(nul_index(field), width as int) == padded(
            cstr(field),
            width,
        ),
{
    lemma_nul_index_bounds(field);
    assert(cstr(field) + zeros(width).subrange(nul_index(field), width as int) =~= padded(
        cstr(field),
        width,
    ));
}

} // verus!
