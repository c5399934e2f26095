use vstd::prelude::*;
use vstd::slice::slice_subrange;
use vstd::utf8::decode_utf8;
use vstd::utf8::valid_utf8;

verus! {

/// The value of two bytes read as a big-endian unsigned integer.
pub open spec fn spec_be_u16(s: Seq<u8>) -> int
    recommends
        s.len() == 2,
{
    s[0] as int * 256 + s[1] as int
}

/// The value of two bytes read as a big-endian two's-complement integer.
pub open spec fn spec_be_i16(s: Seq<u8>) -> int
    recommends
        s.len() == 2,
{
    if s[0] >= 128 {
        spec_be_u16(s) - 65536
    } else {
        spec_be_u16(s)
    }
}

/// The value of four bytes read as a big-endian unsigned integer.
pub open spec fn spec_be_u32(s: Seq<u8>) -> int
    recommends
        s.len() == 4,
{
    s[0] as int * 16777216 + s[1] as int * 65536 + s[2] as int * 256 + s[3] as int
}

/// The two bytes that stand for `value` as a big-endian two's-complement
/// integer.
pub open spec fn be_bytes_of_i16(value: i16) -> Seq<u8> {
    let unsigned: int = if value < 0 {
        value + 65536
    } else {
        value as int
    };
    seq![(unsigned / 256) as u8, (unsigned % 256) as u8]
}

/// The four bytes that stand for `value` as a big-endian unsigned integer.
pub open spec fn be_bytes_of_u32(value: u32) -> Seq<u8> {
    seq![
        (value / 16777216) as u8,
        (value / 65536 % 256) as u8,
        (value / 256 % 256) as u8,
        (value % 256) as u8,
    ]
}

/// Reading back the big-endian bytes of a 16-bit integer gives the integer.
pub proof fn lemma_be_i16_round_trip(value: i16)
    ensures
        be_bytes_of_i16(value).len() == 2,
        spec_be_i16(be_bytes_of_i16(value)) == value,
{
}

/// Reading back the big-endian bytes of a 32-bit integer gives the integer.
pub proof fn lemma_be_u32_round_trip(value: u32)
    ensures
        be_bytes_of_u32(value).len() == 4,
        spec_be_u32(be_bytes_of_u32(value)) == value,
{
}

/// Number of pad bytes that follow a Pascal string whose length byte is `len`:
/// the length byte and the text together occupy an even number of bytes.
pub open spec fn pascal_padding(len: u8) -> int {
    if len % 2 == 0 {
        1
    } else {
        0
    }
}

/// Total number of bytes that a Pascal string with length byte `len` occupies:
/// the length byte, the text and the padding.
pub open spec fn pascal_string_size(len: u8) -> int {
    1 + len as int + pascal_padding(len)
}

/// A Pascal string always occupies an even number of bytes: two where it is
/// empty, its length and one more where its length is odd, its length and
/// two more where its length is even.
pub proof fn lemma_pascal_string_size(len: u8)
    ensures
        pascal_string_size(len) % 2 == 0,
        len == 0 ==> pascal_string_size(len) == 2,
        len % 2 == 1 ==> pascal_string_size(len) == 1 + len,
        len % 2 == 0 ==> pascal_string_size(len) == 1 + len + 1,
{
}

/// What lossy UTF-8 decoding makes of a byte sequence: the text it encodes,
/// with every invalid sequence replaced by U+FFFD.
pub uninterp spec fn utf8_lossy(bytes: Seq<u8>) -> Seq<char>;

/// The text that a Pascal string's bytes stand for: what they encode where
/// they are valid UTF-8, and their lossy decoding where they are not.
pub open spec fn lossy_text(bytes: Seq<u8>) -> Seq<char> {
    if valid_utf8(bytes) {
        decode_utf8(bytes)
    } else {
        utf8_lossy(bytes)
    }
}

/// Calls `String::from_utf8_lossy` and takes ownership of what it returns.
/// Trusted: bytes that are valid UTF-8 give exactly the text they encode;
/// other bytes give a text that depends on the bytes alone, named `utf8_lossy`.
#[verifier::external_body]
fn string_from_utf8_lossy(data: &[u8]) -> (text: String)
    ensures
        text@ == if valid_utf8(data@) {
            decode_utf8(data@)
        } else {
            utf8_lossy(data@)
        },
{
    String::from_utf8_lossy(data).into_owned()
}

/// Decodes four bytes as a big-endian unsigned 32-bit integer.
pub fn u32_from_be_bytes(bytes: &[u8]) -> (value: u32)
    requires
        bytes@.len() == 4,
    ensures
        value == spec_be_u32(bytes@),
{
    let b0: u32 = bytes[0] as u32;
    let b1: u32 = bytes[1] as u32;
    let b2: u32 = bytes[2] as u32;
    let b3: u32 = bytes[3] as u32;
    b0 * 16777216 + b1 * 65536 + b2 * 256 + b3
}

/// A sequential reader over a borrowed byte buffer.
///
/// The cursor never leaves its buffer: its position is at most the buffer's
/// length at all times.
#[derive(Clone, Copy)]
pub struct PSDCursor<'a> {
    bytes: &'a [u8],
    pos: usize,
}

impl<'a> PSDCursor<'a> {
    #[verifier::type_invariant]
    spec fn in_bounds(self) -> bool {
        self.pos <= self.bytes@.len()
    }

    /// The bytes the cursor reads from.
    pub closed spec fn buffer(&self) -> Seq<u8> {
        self.bytes@
    }

    /// The offset of the next byte to be read.
    pub closed spec fn offset(&self) -> int {
        self.pos as int
    }

    /// The bytes from the current position to `n` bytes further on.
    pub open spec fn ahead(&self, n: int) -> Seq<u8> {
        self.buffer().subrange(self.offset(), self.offset() + n)
    }

    /// The text bytes of the Pascal string that starts at the current
    /// position: as many as the byte at the position says, after that byte.
    pub open spec fn pascal_text(&self) -> Seq<u8> {
        self.buffer().subrange(
            self.offset() + 1,
            self.offset() + 1 + self.buffer()[self.offset()],
        )
    }

    /// A cursor at the start of `bytes`.
    pub fn new(bytes: &'a [u8]) -> (cursor: PSDCursor<'a>)
        ensures
            cursor.buffer() == bytes@,
            cursor.offset() == 0,
    {
        PSDCursor { bytes, pos: 0 }
    }

    /// Current offset from the start of the buffer.
    pub fn position(&self) -> (p: u64)
        ensures
            p == self.offset(),
            0 <= self.offset() <= self.buffer().len() <= usize::MAX,
    {
        proof {
            use_type_invariant(self);
            assert(self.bytes@.len() == self.bytes.len());
        }
        self.pos as u64
    }

    /// Number of bytes between the current position and the end of the buffer.
    pub fn remaining(&self) -> (n: usize)
        ensures
            n == self.buffer().len() - self.offset(),
            0 <= self.offset(),
    {
        proof {
            use_type_invariant(self);
        }
        self.bytes.len() - self.pos
    }

    /// The next `n` bytes, without advancing.
    pub fn peek(&self, n: u8) -> (bytes: &'a [u8])
        requires
            self.offset() + n <= self.buffer().len(),
        ensures
            bytes@ == self.ahead(n as int),
            bytes@.len() == n,
    {
        proof {
            use_type_invariant(self);
            assert(self.bytes@.len() == self.bytes.len());
        }
        let start: usize = self.pos;
        let end: usize = start + n as usize;
        slice_subrange(self.bytes, start, end)
    }

    /// The next four bytes, without advancing.
    pub fn peek_4bytes(&self) -> (bytes: &'a [u8])
        requires
            self.offset() + 4 <= self.buffer().len(),
        ensures
            bytes@ == self.ahead(4),
            bytes@.len() == 4,
    {
        self.peek(4)
    }

    /// Advances the cursor by `count` bytes and returns those bytes.
    pub fn read(&mut self, count: u32) -> (bytes: &'a [u8])
        requires
            old(self).offset() + count <= old(self).buffer().len(),
        ensures
            final(self).buffer() == old(self).buffer(),
            final(self).offset() == old(self).offset() + count,
            bytes@ == old(self).ahead(count as int),
            bytes@.len() == count,
    {
        proof {
            use_type_invariant(&*self);
            assert(self.bytes@.len() == self.bytes.len());
        }
        let start: usize = self.pos;
        let end: usize = start + count as usize;
        let bytes = slice_subrange(self.bytes, start, end);
        self.pos = end;
        bytes
    }

    /// Reads two bytes.
    pub fn read_2bytes(&mut self) -> (bytes: &'a [u8])
        requires
            old(self).offset() + 2 <= old(self).buffer().len(),
        ensures
            final(self).buffer() == old(self).buffer(),
            final(self).offset() == old(self).offset() + 2,
            bytes@ == old(self).ahead(2),
            bytes@.len() == 2,
    {
        self.read(2)
    }

    /// Reads four bytes.
    pub fn read_4bytes(&mut self) -> (bytes: &'a [u8])
        requires
            old(self).offset() + 4 <= old(self).buffer().len(),
        ensures
            final(self).buffer() == old(self).buffer(),
            final(self).offset() == old(self).offset() + 4,
            bytes@ == old(self).ahead(4),
            bytes@.len() == 4,
    {
        self.read(4)
    }

    /// Reads six bytes.
    pub fn read_6bytes(&mut self) -> (bytes: &'a [u8])
        requires
            old(self).offset() + 6 <= old(self).buffer().len(),
        ensures
            final(self).buffer() == old(self).buffer(),
            final(self).offset() == old(self).offset() + 6,
            bytes@ == old(self).ahead(6),
            bytes@.len() == 6,
    {
        self.read(6)
    }

    /// Reads one byte.
    pub fn read_1byte_as_u8(&mut self) -> (value: u8)
        requires
            old(self).offset() + 1 <= old(self).buffer().len(),
        ensures
            final(self).buffer() == old(self).buffer(),
            final(self).offset() == old(self).offset() + 1,
            value == old(self).buffer()[old(self).offset()],
    {
        self.read(1)[0]
    }

    /// Reads two bytes as a big-endian unsigned integer.
    pub fn read_2bytes_as_u16(&mut self) -> (value: u16)
        requires
            old(self).offset() + 2 <= old(self).buffer().len(),
        ensures
            final(self).buffer() == old(self).buffer(),
            final(self).offset() == old(self).offset() + 2,
            value == spec_be_u16(old(self).ahead(2)),
    {
        let bytes = self.read_2bytes();
        let hi: u16 = bytes[0] as u16;
        let lo: u16 = bytes[1] as u16;
        hi * 256 + lo
    }

    /// Reads two bytes as a big-endian two's-complement integer.
    pub fn read_2bytes_as_i16(&mut self) -> (value: i16)
        requires
            old(self).offset() + 2 <= old(self).buffer().len(),
        ensures
            final(self).buffer() == old(self).buffer(),
            final(self).offset() == old(self).offset() + 2,
            value == spec_be_i16(old(self).ahead(2)),
    {
        let bytes = self.read_2bytes();
        let hi: i32 = bytes[0] as i32;
        let lo: i32 = bytes[1] as i32;
        let unsigned: i32 = hi * 256 + lo;
        if hi >= 128 {
            (unsigned - 65536) as i16
        } else {
            unsigned as i16
        }
    }

    /// Reads four bytes as a big-endian unsigned integer.
    pub fn read_4bytes_as_u32(&mut self) -> (value: u32)
        requires
            old(self).offset() + 4 <= old(self).buffer().len(),
        ensures
            final(self).buffer() == old(self).buffer(),
            final(self).offset() == old(self).offset() + 4,
            value == spec_be_u32(old(self).ahead(4)),
    {
        let bytes = self.read_4bytes();
        u32_from_be_bytes(bytes)
    }

    /// Reads a Pascal string: a length byte, that many bytes of UTF-8 text,
    /// and one pad byte where the length is even, so that the whole field
    /// occupies an even number of bytes. A zero-length string takes two bytes.
    /// Invalid UTF-8 is replaced, never refused.
    pub fn read_pascal_string(&mut self) -> (text: String)
        requires
            old(self).offset() < old(self).buffer().len(),
            old(self).offset() + pascal_string_size(old(self).buffer()[old(self).offset()])
                <= old(self).buffer().len(),
        ensures
            final(self).buffer() == old(self).buffer(),
            final(self).offset() == old(self).offset() + pascal_string_size(
                old(self).buffer()[old(self).offset()],
            ),
            text@ == lossy_text(old(self).pascal_text()),
    {
        let len: u8 = self.read_1byte_as_u8();
        let data = self.read(len as u32);
        let text = string_from_utf8_lossy(data);
        if len % 2 == 0 {
            self.read_1byte_as_u8();
        }
        text
    }
}

} // verus!
