//! The wire format: fixed-width little-endian integers, zero padding and
//! raw bytes, appended to a caller-supplied buffer, and what decoders and
//! encoders answer.

use vstd::prelude::*;
use crate::utils::{long_of, word_of};

verus! {

/// Little-endian encoding of a 16-bit integer.
pub open spec fn le16(x: u16) -> Seq<u8> {
    seq![(x % 256) as u8, (x / 256) as u8]
}

/// Little-endian encoding of a 32-bit integer.
pub open spec fn le32(x: u32) -> Seq<u8> {
    seq![
        (x % 256) as u8,
        ((x / 256) % 256) as u8,
        ((x / 65536) % 256) as u8,
        (x / 16777216) as u8,
    ]
}

/// Big-endian encoding of a 32-bit integer (used for IPv4 addresses).
pub open spec fn be32(x: u32) -> Seq<u8> {
    seq![
        (x / 16777216) as u8,
        ((x / 65536) % 256) as u8,
        ((x / 256) % 256) as u8,
        (x % 256) as u8,
    ]
}

/// `n` zero bytes.
pub open spec fn zeros(n: nat) -> Seq<u8> {
    Seq::new(n, |i: int| 0u8)
}

/// `data` cut or zero-padded to exactly `width` bytes.
pub open spec fn padded(data: Seq<u8>, width: nat) -> Seq<u8> {
    if data.len() >= width {
        data.subrange(0, width as int)
    } else {
        data + zeros((width - data.len()) as nat)
    }
}

/// What a serializer owes its caller. On `Ok(n)` the first `n` bytes of the
/// buffer are `body` and the rest of the buffer is as it was. On
/// `Err(needed)` the buffer was too small for the `needed` bytes of `body`
/// and nothing was written.
pub open spec fn serialized(
    before: Seq<u8>,
    after: Seq<u8>,
    body: Seq<u8>,
    r: Result<usize, usize>,
) -> bool {
    match r {
        Ok(n) => {
            &&& n == body.len()
            &&& body.len() <= before.len()
            &&& after.len() == before.len()
            &&& after.subrange(0, n as int) == body
            &&& forall|i: int| n <= i < before.len() ==> after[i] == before[i]
        },
        Err(needed) => {
            &&& needed == body.len()
            &&& before.len() < needed
            &&& after == before
        },
    }
}

/// Outcome of decoding the start of a byte stream.
#[derive(Debug)]
pub enum DecodeResult<T, E> {
    /// A whole frame was there and stands for this item.
    Item(T),
    /// The bytes are the start of a frame whose end has not arrived yet.
    UnexpectedEnd,
    /// The bytes are no frame of the protocol: the connection is to be closed.
    Failed(E),
}

/// Outcome of encoding an item into a buffer.
#[derive(Debug)]
pub enum EncodeResult<E> {
    /// The frame was written and is this many bytes long.
    Written(usize),
    /// The item has no wire form.
    Failed(E),
    /// The buffer is too small: the frame needs this many bytes.
    Overflow(usize),
}

/// What an encoder owes its caller when it reports no failure. On
/// `Written(n)` the first `n` bytes of the buffer are `frame` and the rest
/// of the buffer is as it was. On `Overflow(needed)` the buffer was too
/// small for the `needed` bytes of `frame` and nothing was written.
pub open spec fn encoded<E>(
    before: Seq<u8>,
    after: Seq<u8>,
    frame: Seq<u8>,
    r: EncodeResult<E>,
) -> bool {
    match r {
        EncodeResult::Written(n) => {
            &&& n == frame.len()
            &&& frame.len() <= before.len()
            &&& after.len() == before.len()
            &&& after.subrange(0, n as int) == frame
            &&& forall|i: int| n <= i < before.len() ==> after[i] == before[i]
        },
        EncodeResult::Overflow(needed) => {
            &&& needed == frame.len()
            &&& before.len() < needed
            &&& after == before
        },
        EncodeResult::Failed(_) => false,
    }
}

/// A padded field is as wide as asked.
pub proof fn lemma_padded_len(data: Seq<u8>, width: nat)
    ensures
        padded(data, width).len() == width,
{
}

/// Reading back a written 16-bit integer gives the integer.
pub proof fn lemma_word_roundtrip(x: u16)
    ensures
        word_of(le16(x)) == x,
        le16(x).len() == 2,
{
}

/// Reading back a written 32-bit integer gives the integer.
pub proof fn lemma_long_roundtrip(x: u32)
    ensures
        long_of(le32(x)) == x,
        le32(x).len() == 4,
{
}

/// Writing the integer read from two bytes gives those two bytes.
pub proof fn lemma_word_bytes(s: Seq<u8>)
    requires
        s.len() == 2,
    ensures
        le16(word_of(s)) == s,
{
    assert(le16(word_of(s)) =~= s);
}

/// Writing the integer read from four bytes gives those four bytes.
pub proof fn lemma_long_bytes(s: Seq<u8>)
    requires
        s.len() == 4,
    ensures
        le32(long_of(s)) == s,
{
    let b0: u8 = s[0];
    let b1: u8 = s[1];
    let b2: u8 = s[2];
    let b3: u8 = s[3];
    let x: u32 = long_of(s);
    assert(x == b0 + 256 * b1 + 65536 * b2 + 16777216 * b3);
    assert(x % 256 == b0 && (x / 256) % 256 == b1 && (x / 65536) % 256 == b2 && x / 16777216
        == b3) by (bit_vector)
        requires
            x == b0 + 256 * b1 + 65536 * b2 + 16777216 * b3,
    ;
    assert(le32(x) =~= s);
}

/// A cursor over a caller-supplied byte buffer. Bytes are appended at the
/// cursor; nothing before it is touched again and nothing is written past
/// the end of the buffer.
pub struct ClientTcpCodec<'a> {
    pub buf: &'a mut [u8],
    pub cursor: usize,
}

impl<'a> ClientTcpCodec<'a> {
    /// The cursor lies inside the buffer.
    pub open spec fn wf(&self) -> bool {
        self.cursor <= self.buf@.len()
    }

    /// What has been written so far.
    pub open spec fn written(&self) -> Seq<u8> {
        self.buf@.subrange(0, self.cursor as int)
    }

    /// The buffer has the size of `before` and, from the cursor on, its
    /// bytes.
    pub open spec fn kept(&self, before: Seq<u8>) -> bool {
        &&& self.buf@.len() == before.len()
        &&& forall|i: int| self.cursor <= i < before.len() ==> self.buf@[i] == before[i]
    }

    /// How many more bytes fit.
    pub open spec fn room(&self) -> int {
        self.buf@.len() - self.cursor
    }

    /// Size of the whole buffer.
    pub open spec fn size(&self) -> nat {
        self.buf@.len()
    }

    /// A cursor at the start of `buf`.
    pub fn new(buf: &'a mut [u8]) -> (codec: Self)
        ensures
            codec.wf(),
            codec.buf@ == old(buf)@,
            codec.cursor == 0,
            codec.written() == Seq::<u8>::empty(),
            final(codec.buf)@ == final(buf)@,
    {
        ClientTcpCodec { buf, cursor: 0 }
    }

    /// Size of the underlying buffer.
    pub fn capacity(&self) -> (n: usize)
        ensures
            n == self.size(),
    {
        self.buf.len()
    }

    /// Number of bytes written so far.
    pub fn len(&self) -> (n: usize)
        ensures
            n == self.cursor,
    {
        self.cursor
    }

    /// Appends one byte.
    pub fn encode_u8(&mut self, value: u8)
        requires
            old(self).wf(),
            old(self).room() >= 1,
        ensures
            final(self).wf(),
            final(self).written() == old(self).written().push(value),
            final(self).kept(old(self).buf@),
            final(self).cursor == old(self).cursor + 1,
            final(final(self).buf)@ == final(old(self).buf)@,
    {
        self.buf[self.cursor] = value;
        self.cursor = self.cursor + 1;
        assert(self.written() =~= old(self).written().push(value));
    }

    /// Appends a 16-bit integer, low byte first.
    pub fn encode_u16(&mut self, value: u16)
        requires
            old(self).wf(),
            old(self).room() >= 2,
        ensures
            final(self).wf(),
            final(self).written() == old(self).written() + le16(value),
            final(self).kept(old(self).buf@),
            final(self).cursor == old(self).cursor + 2,
            final(final(self).buf)@ == final(old(self).buf)@,
    {
        self.encode_u8((value % 256) as u8);
        self.encode_u8((value / 256) as u8);
        assert(self.written() =~= old(self).written() + le16(value));
    }

    /// Appends a 32-bit integer, low byte first.
    pub fn encode_u32(&mut self, value: u32)
        requires
            old(self).wf(),
            old(self).room() >= 4,
        ensures
            final(self).wf(),
            final(self).written() == old(self).written() + le32(value),
            final(self).kept(old(self).buf@),
            final(self).cursor == old(self).cursor + 4,
            final(final(self).buf)@ == final(old(self).buf)@,
    {
        self.encode_u8((value % 256) as u8);
        self.encode_u8(((value / 256) % 256) as u8);
        self.encode_u8(((value / 65536) % 256) as u8);
        self.encode_u8((value / 16777216) as u8);
        assert(self.written() =~= old(self).written() + le32(value));
    }

    /// Appends a 32-bit integer, high byte first.
    pub fn encode_u32_be(&mut self, value: u32)
        requires
            old(self).wf(),
            old(self).room() >= 4,
        ensures
            final(self).wf(),
            final(self).written() == old(self).written() + be32(value),
            final(self).kept(old(self).buf@),
            final(self).cursor == old(self).cursor + 4,
            final(final(self).buf)@ == final(old(self).buf)@,
    {
        self.encode_u8((value / 16777216) as u8);
        self.encode_u8(((value / 65536) % 256) as u8);
        self.encode_u8(((value / 256) % 256) as u8);
        self.encode_u8((value % 256) as u8);
        assert(self.written() =~= old(self).written() + be32(value));
    }

    /// Appends `count` zero bytes.
    pub fn padding(&mut self, count: usize)
        requires
            old(self).wf(),
            old(self).room() >= count,
        ensures
            final(self).wf(),
            final(self).written() == old(self).written() + zeros(count as nat),
            final(self).kept(old(self).buf@),
            final(self).cursor == old(self).cursor + count,
            final(final(self).buf)@ == final(old(self).buf)@,
    {
        let mut i: usize = 0;
        while i < count
            invariant
                i <= count,
                self.wf(),
                old(self).wf(),
                old(self).room() >= count,
                self.cursor == old(self).cursor + i,
                self.written() == old(self).written() + zeros(i as nat),
                self.kept(old(self).buf@),
                final(self.buf)@ == final(old(self).buf)@,
            decreases count - i,
        {
            self.encode_u8(0);
            i = i + 1;
            assert(self.written() =~= old(self).written() + zeros(i as nat));
            }
    }

    /// Appends `data` cut or zero-padded to exactly `width` bytes.
    pub fn encode_padded(&mut self, data: &[u8], width: usize)
        requires
            old(self).wf(),
            old(self).room() >= width,
        ensures
            final(self).wf(),
            final(self).written() == old(self).written() + padded(data@, width as nat),
            final(self).kept(old(self).buf@),
            final(self).cursor == old(self).cursor + width,
            final(final(self).buf)@ == final(old(self).buf)@,
    {
        let n: usize = if data.len() < width { data.len() } else { width };
        let mut i: usize = 0;
        while i < n
            invariant
                i <= n,
                n <= width,
                n <= data@.len(),
                self.wf(),
                old(self).wf(),
                old(self).room() >= width,
                self.cursor == old(self).cursor + i,
                self.written() == old(self).written() + data@.subrange(0, i as int),
                self.kept(old(self).buf@),
                final(self.buf)@ == final(old(self).buf)@,
            decreases n - i,
        {
            self.encode_u8(data[i]);
            i = i + 1;
            assert(self.written() =~= old(self).written() + data@.subrange(0, i as int));
            }
        self.padding(width - n);
        assert(self.written() =~= old(self).written() + padded(data@, width as nat));
    }
}

/// Little-endian encoding of a 64-bit integer.
pub open spec fn le64(x: u64) -> Seq<u8> {
    le32((x % 0x1_0000_0000) as u32) + le32((x / 0x1_0000_0000) as u32)
}

/// A value that stands on the wire as a fixed number of bytes.
pub trait EncodeFixed {
    /// The bytes that stand for the value.
    spec fn wire(&self) -> Seq<u8>;

    /// The number of those bytes.
    fn size(&self) -> (n: usize)
        ensures
            n == self.wire().len(),
    ;

    /// Fills `buf`, which has that size, with those bytes.
    fn encode(&self, buf: &mut [u8])
        requires
            old(buf)@.len() == self.wire().len(),
        ensures
            final(buf)@ == self.wire(),
    ;
}

/// Something that bytes can be appended to, up to a limit.
pub trait RagnarokCodec {
    /// What has been appended so far.
    spec fn output(&self) -> Seq<u8>;

    /// How many more bytes fit.
    spec fn space(&self) -> int;

    /// Appends the bytes of `val`.
    fn encode<T: EncodeFixed>(&mut self, val: &T)
        requires
            old(self).space() >= val.wire().len(),
        ensures
            final(self).output() == old(self).output() + val.wire(),
            final(self).space() == old(self).space() - val.wire().len(),
    ;

    /// Appends `count` zero bytes.
    fn padding(&mut self, count: usize)
        requires
            old(self).space() >= count,
        ensures
            final(self).output() == old(self).output() + zeros(count as nat),
            final(self).space() == old(self).space() - count,
    ;
}

/// A record that stands on the wire as its fields, one after the other.
pub trait EncodeStruct {
    /// The bytes that stand for the record.
    spec fn frame(&self) -> Seq<u8>;

    /// Appends those bytes to `codec`.
    fn encode<C: RagnarokCodec>(&self, codec: &mut C)
        requires
            old(codec).space() >= self.frame().len(),
        ensures
            final(codec).output() == old(codec).output() + self.frame(),
            final(codec).space() == old(codec).space() - self.frame().len(),
    ;
}

impl EncodeFixed for u8 {
    open spec fn wire(&self) -> Seq<u8> {
        seq![*self]
    }

    fn size(&self) -> (n: usize) {
        1
    }

    fn encode(&self, buf: &mut [u8]) {
        buf[0] = *self;
        assert(buf@ =~= seq![*self]);
    }
}

impl EncodeFixed for u16 {
    open spec fn wire(&self) -> Seq<u8> {
        le16(*self)
    }

    fn size(&self) -> (n: usize) {
        2
    }

    fn encode(&self, buf: &mut [u8]) {
        buf[0] = (*self % 256) as u8;
        buf[1] = (*self / 256) as u8;
        assert(buf@ =~= le16(*self));
    }
}

impl EncodeFixed for u32 {
    open spec fn wire(&self) -> Seq<u8> {
        le32(*self)
    }

    fn size(&self) -> (n: usize) {
        4
    }

    fn encode(&self, buf: &mut [u8]) {
        buf[0] = (*self % 256) as u8;
        buf[1] = ((*self / 256) % 256) as u8;
        buf[2] = ((*self / 65536) % 256) as u8;
        buf[3] = (*self / 16777216) as u8;
        assert(buf@ =~= le32(*self));
    }
}

impl EncodeFixed for u64 {
    open spec fn wire(&self) -> Seq<u8> {
        le64(*self)
    }

    fn size(&self) -> (n: usize) {
        8
    }

    fn encode(&self, buf: &mut [u8]) {
        let low: u32 = (*self % 0x1_0000_0000) as u32;
        let high: u32 = (*self / 0x1_0000_0000) as u32;
        buf[0] = (low % 256) as u8;
        buf[1] = ((low / 256) % 256) as u8;
        buf[2] = ((low / 65536) % 256) as u8;
        buf[3] = (low / 16777216) as u8;
        buf[4] = (high % 256) as u8;
        buf[5] = ((high / 256) % 256) as u8;
        buf[6] = ((high / 65536) % 256) as u8;
        buf[7] = (high / 16777216) as u8;
        assert(buf@ =~= le64(*self));
    }
}

/// Fills `buf` with `data`, cut or zero-padded to the size of `buf`.
pub fn fill_padded(buf: &mut [u8], data: &[u8])
    ensures
        final(buf)@ == padded(data@, old(buf)@.len()),
{
    let width = buf.len();
    let mut i: usize = 0;
    while i < width
        invariant
            i <= width,
            width == buf@.len(),
            buf@.len() == old(buf)@.len(),
            forall|j: int| 0 <= j < i ==> buf@[j] == padded(data@, width as nat)[j],
        decreases width - i,
    {
        if i < data.len() {
            buf[i] = data[i];
        } else {
            buf[i] = 0;
        }
        i = i + 1;
    }
    assert(buf@ =~= padded(data@, width as nat));
}

impl<'a> RagnarokCodec for ClientTcpCodec<'a> {
    open spec fn output(&self) -> Seq<u8> {
        self.written()
    }

    open spec fn space(&self) -> int {
        if self.wf() {
            self.room()
        } else {
            -1
        }
    }

    fn encode<T: EncodeFixed>(&mut self, val: &T) {
        let cursor = self.cursor;
        let size = val.size();
        let total = self.buf.len();
        assert(cursor + size <= total);
        let (head, rest) = self.buf.split_at_mut(cursor);
        let (mid, tail) = rest.split_at_mut(size);
        val.encode(mid);
        self.cursor = cursor + size;
        assert(self.written() =~= old(self).written() + val.wire());
    }

    fn padding(&mut self, count: usize) {
        ClientTcpCodec::padding(self, count);
    }
}

impl<'a> ClientTcpCodec<'a> {
    /// Appends the bytes of the record `val`.
    pub fn encode_struct<T: EncodeStruct>(&mut self, val: &T)
        requires
            old(self).wf(),
            old(self).room() >= val.frame().len(),
        ensures
            final(self).wf(),
            final(self).written() == old(self).written() + val.frame(),
            final(self).room() == old(self).room() - val.frame().len(),
    {
        val.encode(self);
    }
}

/// Appends a 16-bit integer, low byte first.
pub fn push_u16(out: &mut Vec<u8>, value: u16)
    ensures
        final(out)@ == old(out)@ + le16(value),
{
    out.push((value % 256) as u8);
    out.push((value / 256) as u8);
    assert(out@ =~= old(out)@ + le16(value));
}

/// Appends a 32-bit integer, low byte first.
pub fn push_u32(out: &mut Vec<u8>, value: u32)
    ensures
        final(out)@ == old(out)@ + le32(value),
{
    out.push((value % 256) as u8);
    out.push(((value / 256) % 256) as u8);
    out.push(((value / 65536) % 256) as u8);
    out.push((value / 16777216) as u8);
    assert(out@ =~= old(out)@ + le32(value));
}

/// Appends `count` zero bytes.
pub fn push_zeros(out: &mut Vec<u8>, count: usize)
    ensures
        final(out)@ == old(out)@ + zeros(count as nat),
{
    let mut i: usize = 0;
    while i < count
        invariant
            i <= count,
            out@ == old(out)@ + zeros(i as nat),
        decreases count - i,
    {
        out.push(0);
        i = i + 1;
        assert(out@ =~= old(out)@ + zeros(i as nat));
    }
}

/// Appends `data`.
pub fn push_bytes(out: &mut Vec<u8>, data: &[u8])
    ensures
        final(out)@ == old(out)@ + data@,
{
    let mut i: usize = 0;
    while i < data.len()
        invariant
            i <= data@.len(),
            out@ == old(out)@ + data@.take(i as int),
        decreases data@.len() - i,
    {
        out.push(data[i]);
        i = i + 1;
        assert(out@ =~= old(out)@ + data@.take(i as int));
    }
    assert(data@.take(data@.len() as int) =~= data@);
}

/// Appends `data` cut or zero-padded to exactly `width` bytes.
pub fn push_padded(out: &mut Vec<u8>, data: &[u8], width: usize)
    ensures
        final(out)@ == old(out)@ + padded(data@, width as nat),
{
    let mut i: usize = 0;
    while i < width
        invariant
            i <= width,
            out@ == old(out)@ + padded(data@, width as nat).take(i as int),
        decreases width - i,
    {
        if i < data.len() {
            out.push(data[i]);
        } else {
            out.push(0);
        }
        i = i + 1;
        assert(out@ =~= old(out)@ + padded(data@, width as nat).take(i as int));
    }
    assert(padded(data@, width as nat).take(width as int) =~= padded(data@, width as nat));
}

} // verus!
