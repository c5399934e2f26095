use crate::sections::psd_cursor::be_bytes_of_i16;
use crate::sections::psd_cursor::be_bytes_of_u32;
use crate::sections::psd_cursor::lemma_be_i16_round_trip;
use crate::sections::psd_cursor::lemma_be_u32_round_trip;
use crate::sections::psd_cursor::lossy_text;
use crate::sections::psd_cursor::pascal_string_size;
use crate::sections::psd_cursor::spec_be_i16;
use crate::sections::psd_cursor::spec_be_u32;
use crate::sections::psd_cursor::u32_from_be_bytes;
use crate::sections::psd_cursor::PSDCursor;
use vstd::prelude::*;
use vstd::slice::slice_subrange;

verus! {

/// Identifier of the resource that holds the slices.
pub const RESOURCE_SLICES_INFO: i16 = 1050;

/// A half-open range `[start, end)` of offsets into the decoded buffer.
#[derive(Debug, Clone, Copy, PartialEq, Eq)]
pub struct ByteRange {
    pub start: usize,
    pub end: usize,
}

/// Why an image resources section was refused.
#[derive(Debug, Clone, Copy, PartialEq, Eq)]
pub enum ImageResourcesSectionError {
    /// A resource block does not begin with "8BIM".
    InvalidSignature,
    /// The buffer is shorter than its length field, or than the length
    /// that field declares.
    IncorrectLength { length: usize },
    /// The resource block that begins at `offset` runs past the end that
    /// the section declares.
    BlockOverrun { offset: usize },
}

/// What a resource identifier selects.
#[derive(Debug, Clone, Copy, PartialEq, Eq)]
pub enum ResourceKind {
    /// The slices of the document.
    SlicesInfo,
    /// A resource that is kept as it is.
    Other,
}

/// What a resource block holds.
pub struct ResourceBlockFields {
    pub resource_id: i16,
    pub name: Seq<char>,
    pub data_range: ByteRange,
}

/// One block of the image resources section.
#[derive(Debug, PartialEq, Eq)]
pub struct ImageResourceBlock {
    pub resource_id: i16,
    pub name: String,
    pub data_range: ByteRange,
}

impl ImageResourceBlock {
    /// What this block holds.
    pub open spec fn view(&self) -> ResourceBlockFields {
        ResourceBlockFields {
            resource_id: self.resource_id,
            name: self.name@,
            data_range: self.data_range,
        }
    }

    /// What the block's identifier selects.
    pub fn kind(&self) -> (kind: ResourceKind)
        ensures
            kind == resource_kind(self.resource_id),
    {
        if self.resource_id == RESOURCE_SLICES_INFO {
            ResourceKind::SlicesInfo
        } else {
            ResourceKind::Other
        }
    }
}

/// What the identifier `resource_id` selects.
pub open spec fn resource_kind(resource_id: i16) -> ResourceKind {
    if resource_id == RESOURCE_SLICES_INFO {
        ResourceKind::SlicesInfo
    } else {
        ResourceKind::Other
    }
}

/// The four bytes of `s` at `pos` are the block signature, "8BIM".
pub open spec fn has_block_signature(s: Seq<u8>, pos: int) -> bool {
    s[pos] == 56 && s[pos + 1] == 66 && s[pos + 2] == 73 && s[pos + 3] == 77
}

/// A length rounded up to the next even number.
pub open spec fn padded_len(n: int) -> int {
    n + n % 2
}

/// Identifier of the block that starts at `pos`.
pub open spec fn block_id(s: Seq<u8>, pos: int) -> i16 {
    spec_be_i16(s.subrange(pos + 4, pos + 6)) as i16
}

/// Length byte of the name of the block that starts at `pos`.
pub open spec fn block_name_len(s: Seq<u8>, pos: int) -> u8 {
    s[pos + 6]
}

/// Text bytes of the name of the block that starts at `pos`.
pub open spec fn block_name_bytes(s: Seq<u8>, pos: int) -> Seq<u8> {
    s.subrange(pos + 7, pos + 7 + block_name_len(s, pos))
}

/// Offset just behind the padded name of the block that starts at `pos`.
pub open spec fn block_name_end(s: Seq<u8>, pos: int) -> int {
    pos + 6 + pascal_string_size(block_name_len(s, pos))
}

/// Offset of the first data byte of the block that starts at `pos`.
pub open spec fn block_data_start(s: Seq<u8>, pos: int) -> int {
    block_name_end(s, pos) + 4
}

/// Data length that the block that starts at `pos` declares.
pub open spec fn block_declared_len(s: Seq<u8>, pos: int) -> int {
    spec_be_u32(s.subrange(block_name_end(s, pos), block_name_end(s, pos) + 4))
}

/// Offset just behind the padded data of the block that starts at `pos`:
/// where the next block begins.
pub open spec fn block_end(s: Seq<u8>, pos: int) -> int {
    block_data_start(s, pos) + padded_len(block_declared_len(s, pos))
}

/// Every field of the block that starts at `pos` lies within `s`.
pub open spec fn block_fits(s: Seq<u8>, pos: int) -> bool {
    &&& pos + 7 <= s.len()
    &&& block_data_start(s, pos) <= s.len()
    &&& block_end(s, pos) <= s.len()
}

/// Why the block that starts at `pos` is refused, if it is: a block with
/// room for its signature must carry it, and a block must end within `s`.
pub open spec fn block_error(s: Seq<u8>, pos: int) -> Option<ImageResourcesSectionError> {
    if pos + 4 > s.len() {
        Some(ImageResourcesSectionError::BlockOverrun { offset: pos as usize })
    } else if !has_block_signature(s, pos) {
        Some(ImageResourcesSectionError::InvalidSignature)
    } else if !block_fits(s, pos) {
        Some(ImageResourcesSectionError::BlockOverrun { offset: pos as usize })
    } else {
        None
    }
}

/// What the block that starts at `pos` holds.
pub open spec fn block_at(s: Seq<u8>, pos: int) -> ResourceBlockFields {
    ResourceBlockFields {
        resource_id: block_id(s, pos),
        name: lossy_text(block_name_bytes(s, pos)),
        data_range: ByteRange {
            start: block_data_start(s, pos) as usize,
            end: block_end(s, pos) as usize,
        },
    }
}

/// `front`, followed by what `rest` holds where `rest` is a success.
pub open spec fn followed_by(
    front: Seq<ResourceBlockFields>,
    rest: Result<Seq<ResourceBlockFields>, ImageResourcesSectionError>,
) -> Result<Seq<ResourceBlockFields>, ImageResourcesSectionError> {
    match rest {
        Ok(blocks) => Ok(front + blocks),
        Err(error) => Err(error),
    }
}

/// The blocks of the stream `s` from `pos` on, in file order, or the error
/// of the first block that is refused. No block is read at the end of `s`.
pub open spec fn decode_blocks(s: Seq<u8>, pos: int) -> Result<
    Seq<ResourceBlockFields>,
    ImageResourcesSectionError,
>
    decreases s.len() - pos,
{
    if pos >= s.len() {
        Ok(Seq::empty())
    } else {
        match block_error(s, pos) {
            Some(error) => Err(error),
            None => followed_by(seq![block_at(s, pos)], decode_blocks(s, block_end(s, pos))),
        }
    }
}

/// Total length of the block stream that the section bytes `s` declare.
pub open spec fn declared_length(s: Seq<u8>) -> int {
    spec_be_u32(s.subrange(0, 4))
}

/// The length field of the section bytes `s` together with the stream of
/// blocks that it declares: `s` without what lies behind the declared length.
pub open spec fn block_stream(s: Seq<u8>) -> Seq<u8> {
    s.subrange(0, 4 + declared_length(s))
}

/// What decoding the section bytes `s` gives: the section is a four-byte
/// length and a stream of blocks that fills exactly that many bytes.
pub open spec fn decode_resources(s: Seq<u8>) -> Result<
    Seq<ResourceBlockFields>,
    ImageResourcesSectionError,
> {
    if s.len() < 4 || 4 + declared_length(s) > s.len() {
        Err(ImageResourcesSectionError::IncorrectLength { length: s.len() as usize })
    } else {
        decode_blocks(block_stream(s), 4)
    }
}

/// Every data range among the blocks decoded from `pos` on lies behind
/// `pos` and within the stream.
pub proof fn lemma_data_ranges_in_bounds(s: Seq<u8>, pos: int)
    requires
        0 <= pos,
        s.len() <= usize::MAX,
        decode_blocks(s, pos) is Ok,
    ensures
        forall|i: int|
            0 <= i < decode_blocks(s, pos).unwrap().len() ==> {
                let range = (#[trigger] decode_blocks(s, pos).unwrap()[i]).data_range;
                pos <= range.start <= range.end <= s.len()
            },
    decreases s.len() - pos,
{
    if pos < s.len() {
        let next = block_end(s, pos);
        lemma_data_ranges_in_bounds(s, next);
        let rest = decode_blocks(s, next).unwrap();
        let all = decode_blocks(s, pos).unwrap();
        assert forall|i: int| 0 <= i < all.len() implies {
            let range = (#[trigger] all[i]).data_range;
            pos <= range.start <= range.end <= s.len()
        } by {
            if i > 0 {
                assert(all[i] == rest[i - 1]);
            }
        }
    }
}

/// A section that declares a length of zero holds no blocks.
pub proof fn lemma_no_blocks_declared(s: Seq<u8>)
    requires
        s.len() >= 4,
        declared_length(s) == 0,
    ensures
        decode_resources(s) == Ok::<Seq<ResourceBlockFields>, ImageResourcesSectionError>(
            Seq::empty(),
        ),
{
}

/// Where blocks are decoded from `pos` on, the last of them ends exactly
/// where the stream ends; there is none only where `pos` is at that end.
pub proof fn lemma_blocks_end_with_stream(s: Seq<u8>, pos: int)
    requires
        0 <= pos <= s.len() <= usize::MAX,
        decode_blocks(s, pos) is Ok,
    ensures
        decode_blocks(s, pos).unwrap().len() == 0 <==> pos == s.len(),
        pos < s.len() ==> decode_blocks(s, pos).unwrap().last().data_range.end == s.len(),
    decreases s.len() - pos,
{
    if pos < s.len() {
        let next = block_end(s, pos);
        lemma_blocks_end_with_stream(s, next);
        let rest = decode_blocks(s, next).unwrap();
        let all = decode_blocks(s, pos).unwrap();
        assert(all == seq![block_at(s, pos)] + rest);
        if rest.len() > 0 {
            assert(all.last() == rest.last());
        }
    }
}

/// What a resource block is written from.
pub struct ResourceBlockSource {
    pub resource_id: i16,
    pub name: Seq<u8>,
    pub data: Seq<u8>,
}

/// The name and the data of `source` are short enough for their length fields.
pub open spec fn valid_block_source(source: ResourceBlockSource) -> bool {
    source.name.len() <= u8::MAX && source.data.len() <= u32::MAX
}

/// One zero byte where `wanted`, none where not.
pub open spec fn pad_bytes(wanted: bool) -> Seq<u8> {
    if wanted {
        seq![0u8]
    } else {
        Seq::empty()
    }
}

/// The bytes of the block that stands for `source`: signature, identifier,
/// padded name, data length and padded data.
pub open spec fn encode_block(source: ResourceBlockSource) -> Seq<u8> {
    seq![56u8, 66, 73, 77] + be_bytes_of_i16(source.resource_id) + seq![source.name.len() as u8]
        + source.name + pad_bytes(source.name.len() % 2 == 0) + be_bytes_of_u32(
        source.data.len() as u32,
    ) + source.data + pad_bytes(source.data.len() % 2 == 1)
}

/// Number of bytes of the block that stands for `source`.
pub open spec fn encoded_block_len(source: ResourceBlockSource) -> int {
    6 + pascal_string_size(source.name.len() as u8) + 4 + padded_len(source.data.len() as int)
}

/// The bytes of the blocks that stand for `sources`, one after another.
pub open spec fn encode_blocks(sources: Seq<ResourceBlockSource>) -> Seq<u8>
    decreases sources.len(),
{
    if sources.len() == 0 {
        Seq::empty()
    } else {
        encode_block(sources[0]) + encode_blocks(sources.drop_first())
    }
}

/// What decoding gives for the block that stands for `source` and starts
/// at `pos`.
pub open spec fn expected_block(source: ResourceBlockSource, pos: int) -> ResourceBlockFields {
    ResourceBlockFields {
        resource_id: source.resource_id,
        name: lossy_text(source.name),
        data_range: ByteRange {
            start: (pos + 6 + pascal_string_size(source.name.len() as u8) + 4) as usize,
            end: (pos + encoded_block_len(source)) as usize,
        },
    }
}

/// What decoding gives for the blocks that stand for `sources`, the first
/// of which starts at `pos`.
pub open spec fn expected_blocks(sources: Seq<ResourceBlockSource>, pos: int) -> Seq<
    ResourceBlockFields,
>
    decreases sources.len(),
{
    if sources.len() == 0 {
        Seq::empty()
    } else {
        seq![expected_block(sources[0], pos)] + expected_blocks(
            sources.drop_first(),
            pos + encoded_block_len(sources[0]),
        )
    }
}

/// The bytes of an image resources section that holds the blocks that stand
/// for `sources`: the length of the blocks' bytes, then those bytes.
pub open spec fn encode_resources(sources: Seq<ResourceBlockSource>) -> Seq<u8> {
    be_bytes_of_u32(encode_blocks(sources).len() as u32) + encode_blocks(sources)
}

/// As many blocks are expected as there are sources.
pub proof fn lemma_expected_blocks_len(sources: Seq<ResourceBlockSource>, pos: int)
    ensures
        expected_blocks(sources, pos).len() == sources.len(),
    decreases sources.len(),
{
    if sources.len() > 0 {
        lemma_expected_blocks_len(sources.drop_first(), pos + encoded_block_len(sources[0]));
    }
}

/// The block written for `source` has the length and the layout that the
/// decoder reads: where `s` holds it at `pos`, decoding at `pos` finds the
/// fields of `source` and ends behind the block.
pub proof fn lemma_decode_encoded_block(s: Seq<u8>, pos: int, source: ResourceBlockSource)
    requires
        valid_block_source(source),
        0 <= pos,
        pos + encode_block(source).len() <= s.len() <= usize::MAX,
        s.subrange(pos, pos + encode_block(source).len()) == encode_block(source),
    ensures
        encode_block(source).len() == encoded_block_len(source),
        block_error(s, pos) is None,
        block_end(s, pos) == pos + encoded_block_len(source),
        block_at(s, pos) == expected_block(source, pos),
        s.subrange(
            block_data_start(s, pos),
            block_data_start(s, pos) + source.data.len(),
        ) == source.data,
{
    let e = encode_block(source);
    let n = source.name.len() as int;
    let d = source.data.len() as int;
    let name_end = 6 + pascal_string_size(n as u8);
    lemma_be_i16_round_trip(source.resource_id);
    lemma_be_u32_round_trip(d as u32);
    assert forall|k: int| 0 <= k < e.len() implies s[pos + k] == #[trigger] e[k] by {
        assert(s.subrange(pos, pos + e.len())[k] == s[pos + k]);
    }
    assert(e[0] == 56 && e[1] == 66 && e[2] == 73 && e[3] == 77);
    assert(s.subrange(pos + 4, pos + 6) =~= be_bytes_of_i16(source.resource_id)) by {
        assert(e[4] == be_bytes_of_i16(source.resource_id)[0]);
        assert(e[5] == be_bytes_of_i16(source.resource_id)[1]);
    }
    assert(e[6] == n as u8);
    assert(block_name_bytes(s, pos) =~= source.name) by {
        assert forall|k: int| 0 <= k < n implies s[pos + 7 + k] == #[trigger] source.name[k] by {
            assert(e[7 + k] == source.name[k]);
        }
    }
    let length_bytes = be_bytes_of_u32(d as u32);
    assert(s.subrange(pos + name_end, pos + name_end + 4) =~= length_bytes) by {
        assert(e[name_end] == length_bytes[0]);
        assert(e[name_end + 1] == length_bytes[1]);
        assert(e[name_end + 2] == length_bytes[2]);
        assert(e[name_end + 3] == length_bytes[3]);
    }
    assert(s.subrange(pos + name_end + 4, pos + name_end + 4 + d) =~= source.data) by {
        assert forall|k: int| 0 <= k < d implies s[pos + name_end + 4 + k]
            == #[trigger] source.data[k] by {
            assert(e[name_end + 4 + k] == source.data[k]);
        }
    }
}

/// Blocks written one after another, filling the stream from `pos` to its
/// end exactly, decode to as many blocks, in the same order, with the
/// identifiers, names and data they were written from.
pub proof fn lemma_decode_encoded_blocks(s: Seq<u8>, pos: int, sources: Seq<ResourceBlockSource>)
    requires
        forall|i: int| 0 <= i < sources.len() ==> valid_block_source(#[trigger] sources[i]),
        0 <= pos <= s.len() <= usize::MAX,
        s.subrange(pos, s.len() as int) == encode_blocks(sources),
    ensures
        decode_blocks(s, pos) == Ok::<Seq<ResourceBlockFields>, ImageResourcesSectionError>(
            expected_blocks(sources, pos),
        ),
        expected_blocks(sources, pos).len() == sources.len(),
    decreases sources.len(),
{
    let limit = s.len() as int;
    lemma_expected_blocks_len(sources, pos);
    assert(s.subrange(pos, limit).len() == limit - pos);
    if sources.len() > 0 {
        let first = sources[0];
        let rest = sources.drop_first();
        let e = encode_block(first);
        let tail = encode_blocks(rest);
        assert(s.subrange(pos, pos + e.len()) =~= e) by {
            assert forall|k: int| 0 <= k < e.len() implies s[pos + k] == #[trigger] e[k] by {
                assert(s.subrange(pos, limit)[k] == (e + tail)[k]);
            }
        }
        lemma_decode_encoded_block(s, pos, first);
        let next = pos + encoded_block_len(first);
        assert(s.subrange(next, limit) =~= tail) by {
            assert forall|k: int| 0 <= k < tail.len() implies s[next + k] == #[trigger] tail[k] by {
                assert(s.subrange(pos, limit)[e.len() + k] == (e + tail)[e.len() + k]);
            }
        }
        assert forall|i: int| 0 <= i < rest.len() implies valid_block_source(
            #[trigger] rest[i],
        ) by {
            assert(rest[i] == sources[i + 1]);
        }
        lemma_decode_encoded_blocks(s, next, rest);
    }
}

/// A section written from `sources`, whose declared length is exactly the
/// length of its blocks, decodes to as many blocks as there are sources.
pub proof fn lemma_decode_encoded_resources(sources: Seq<ResourceBlockSource>)
    requires
        forall|i: int| 0 <= i < sources.len() ==> valid_block_source(#[trigger] sources[i]),
        encode_blocks(sources).len() <= u32::MAX,
        4 + encode_blocks(sources).len() <= usize::MAX,
    ensures
        decode_resources(encode_resources(sources)) == Ok::<
            Seq<ResourceBlockFields>,
            ImageResourcesSectionError,
        >(expected_blocks(sources, 4)),
        expected_blocks(sources, 4).len() == sources.len(),
{
    let s = encode_resources(sources);
    let total = encode_blocks(sources).len() as int;
    lemma_be_u32_round_trip(total as u32);
    assert(block_stream(s) =~= s);
    assert(s.subrange(4, 4 + total) =~= encode_blocks(sources));
    lemma_decode_encoded_blocks(s, 4, sources);
}

/// The decoded image resources: the blocks in file order, none dropped.
#[derive(Debug, PartialEq, Eq)]
pub struct ImageResourcesSection {
    pub(crate) blocks: Vec<ImageResourceBlock>,
}

impl ImageResourcesSection {
    /// What the blocks hold, in file order.
    pub closed spec fn view(&self) -> Seq<ResourceBlockFields> {
        Seq::new(self.blocks@.len(), |i: int| self.blocks@[i]@)
    }

    /// Decodes an image resources section: its length field, then one block
    /// after another until the declared length is used up. Data ranges are
    /// offsets into `bytes`.
    pub fn from_bytes(bytes: &[u8]) -> (decoded: Result<Self, ImageResourcesSectionError>)
        ensures
            match decoded {
                Ok(section) => decode_resources(bytes@) == Ok::<
                    Seq<ResourceBlockFields>,
                    ImageResourcesSectionError,
                >(section@),
                Err(error) => decode_resources(bytes@) == Err::<
                    Seq<ResourceBlockFields>,
                    ImageResourcesSectionError,
                >(error),
            },
    {
        let len: usize = bytes.len();
        if len < 4 {
            return Err(ImageResourcesSectionError::IncorrectLength { length: len });
        }
        let declared: u32 = u32_from_be_bytes(slice_subrange(bytes, 0, 4));
        if len - 4 < declared as usize {
            return Err(ImageResourcesSectionError::IncorrectLength { length: len });
        }
        let stream = slice_subrange(bytes, 0, 4 + declared as usize);
        let mut cursor = PSDCursor::new(stream);
        cursor.read_4bytes();
        let mut blocks: Vec<ImageResourceBlock> = Vec::new();
        let ghost mut front: Seq<ResourceBlockFields> = Seq::empty();
        assert(followed_by(front, decode_blocks(stream@, 4)) == decode_blocks(stream@, 4)) by {
            match decode_blocks(stream@, 4) {
                Ok(all) => assert(front + all =~= all),
                Err(_) => {},
            }
        }
        while cursor.remaining() > 0
            invariant
                cursor.buffer() == stream@,
                stream@ == block_stream(bytes@),
                4 + declared_length(bytes@) <= bytes@.len(),
                front.len() == blocks@.len(),
                forall|i: int| 0 <= i < front.len() ==> front[i] == blocks@[i]@,
                followed_by(front, decode_blocks(stream@, cursor.offset())) == decode_blocks(
                    stream@,
                    4,
                ),
            decreases stream@.len() - cursor.offset(),
        {
            let ghost pos = cursor.offset();
            match Self::read_resource_block(&mut cursor) {
                Ok(block) => {
                    proof {
                        match decode_blocks(stream@, block_end(stream@, pos)) {
                            Ok(tail) => assert(front + (seq![block@] + tail) =~= front.push(block@)
                                + tail),
                            Err(_) => {},
                        }
                        front = front.push(block@);
                    }
                    blocks.push(block);
                },
                Err(error) => {
                    return Err(error);
                },
            }
        }
        let section = ImageResourcesSection { blocks };
        assert(section@ =~= front);
        Ok(section)
    }

    /// Reads the resource block at the cursor: signature, identifier, name,
    /// data length, and the range of the data, which is stepped over and not
    /// read. The block must end within the cursor's buffer. A block that is
    /// refused leaves the cursor where it was.
    pub fn read_resource_block(cursor: &mut PSDCursor) -> (read: Result<
        ImageResourceBlock,
        ImageResourcesSectionError,
    >)
        ensures
            final(cursor).buffer() == old(cursor).buffer(),
            match read {
                Ok(block) => {
                    &&& block_error(old(cursor).buffer(), old(cursor).offset()) is None
                    &&& block@ == block_at(old(cursor).buffer(), old(cursor).offset())
                    &&& final(cursor).offset() == block_end(
                        old(cursor).buffer(),
                        old(cursor).offset(),
                    )
                },
                Err(error) => {
                    &&& block_error(old(cursor).buffer(), old(cursor).offset()) == Some(error)
                    &&& final(cursor).offset() == old(cursor).offset()
                },
            },
    {
        let mut probe: PSDCursor = *cursor;
        let overrun = ImageResourcesSectionError::BlockOverrun {
            offset: probe.position() as usize,
        };
        if probe.remaining() < 4 {
            return Err(overrun);
        }
        let signature = probe.read_4bytes();
        if !(signature[0] == 56 && signature[1] == 66 && signature[2] == 73 && signature[3]
            == 77) {
            return Err(ImageResourcesSectionError::InvalidSignature);
        }
        if probe.remaining() < 3 {
            return Err(overrun);
        }
        let resource_id: i16 = probe.read_2bytes_as_i16();
        let name_len: u8 = probe.peek(1)[0];
        let name_size: usize = if name_len % 2 == 0 {
            name_len as usize + 2
        } else {
            name_len as usize + 1
        };
        if probe.remaining() < name_size + 4 {
            return Err(overrun);
        }
        let name: String = probe.read_pascal_string();
        let data_len: u32 = probe.read_4bytes_as_u32();
        let pad: u32 = data_len % 2;
        if (probe.remaining() as u64) < data_len as u64 + pad as u64 {
            return Err(overrun);
        }
        let start: usize = probe.position() as usize;
        probe.read(data_len);
        probe.read(pad);
        let end: usize = probe.position() as usize;
        *cursor = probe;
        Ok(ImageResourceBlock { resource_id, name, data_range: ByteRange { start, end } })
    }

    /// Number of blocks.
    pub fn len(&self) -> (n: usize)
        ensures
            n == self@.len(),
    {
        self.blocks.len()
    }

    /// The block at `index`, counted in file order.
    pub fn block(&self, index: usize) -> (block: &ImageResourceBlock)
        requires
            index < self@.len(),
        ensures
            block@ == self@[index as int],
    {
        &self.blocks[index]
    }
}

} // verus!
