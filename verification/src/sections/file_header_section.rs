use crate::sections::psd_cursor::be_bytes_of_u32;
use crate::sections::psd_cursor::lemma_be_u32_round_trip;
use crate::sections::psd_cursor::spec_be_u32;
use crate::sections::psd_cursor::PSDCursor;
use vstd::prelude::*;

verus! {

/// Number of bytes in the file header.
pub const FILE_HEADER_LENGTH: usize = 26;

/// Largest channel count the format allows.
pub const MAX_CHANNEL_COUNT: u8 = 56;

/// Largest height or width, in pixels, the format allows.
pub const MAX_DIMENSION: u32 = 30000;

/// The bytes `s` begins with are the file signature, "8BPS".
pub open spec fn has_psd_signature(s: Seq<u8>) -> bool {
    s.len() >= 4 && s[0] == 56 && s[1] == 66 && s[2] == 80 && s[3] == 83
}

/// Bytes 4 and 5 of `s` are the version marker: the number one.
pub open spec fn has_psd_version(s: Seq<u8>) -> bool {
    s.len() >= 6 && s[4] == 0 && s[5] == 1
}

/// Bytes 6 to 11 of `s`, the reserved field, are all zero.
pub open spec fn has_zero_reserved(s: Seq<u8>) -> bool {
    s.len() >= 12 && forall|i: int| 6 <= i < 12 ==> s[i] == 0
}

/// `n` is a channel count the format allows.
pub open spec fn valid_channel_count(n: u8) -> bool {
    1 <= n <= MAX_CHANNEL_COUNT
}

/// `n` is a height or width the format allows.
pub open spec fn valid_dimension(n: u32) -> bool {
    1 <= n <= MAX_DIMENSION
}

/// True when the four-byte signature at the start of `bytes` is "8BPS".
pub fn starts_with_psd_signature(bytes: &[u8]) -> (found: bool)
    ensures
        found == has_psd_signature(bytes@),
{
    bytes.len() >= 4 && bytes[0] == 56 && bytes[1] == 66 && bytes[2] == 80 && bytes[3] == 83
}

/// The file format's version.
#[derive(Debug, Clone, Copy, PartialEq, Eq)]
pub enum PSDVersion {
    /// Regular PSD (not a large document).
    One,
}

/// Number of channels in the image, alpha channels included: 1 to 56.
#[derive(Debug, Clone, Copy, PartialEq, Eq)]
pub struct ChannelCount(u8);

impl ChannelCount {
    #[verifier::type_invariant]
    spec fn in_domain(self) -> bool {
        valid_channel_count(self.0)
    }

    /// The number of channels.
    pub closed spec fn view(&self) -> u8 {
        self.0
    }

    /// A channel count, where `channel_count` is one the format allows.
    pub fn new(channel_count: u8) -> (made: Option<Self>)
        ensures
            made is Some <==> valid_channel_count(channel_count),
            made is Some ==> made.unwrap()@ == channel_count,
    {
        if 1 <= channel_count && channel_count <= MAX_CHANNEL_COUNT {
            Some(ChannelCount(channel_count))
        } else {
            None
        }
    }

    /// The number of channels.
    pub fn value(&self) -> (n: u8)
        ensures
            n == self@,
            valid_channel_count(n),
    {
        proof {
            use_type_invariant(self);
        }
        self.0
    }
}

/// Height of the image in pixels: 1 to 30000.
#[derive(Debug, Clone, Copy, PartialEq, Eq)]
pub struct PSDHeight(pub(crate) u32);

impl PSDHeight {
    #[verifier::type_invariant]
    spec fn in_domain(self) -> bool {
        valid_dimension(self.0)
    }

    /// The height in pixels.
    pub closed spec fn view(&self) -> u32 {
        self.0
    }

    /// A height, where `height` is one the format allows.
    pub fn new(height: u32) -> (made: Option<Self>)
        ensures
            made is Some <==> valid_dimension(height),
            made is Some ==> made.unwrap()@ == height,
    {
        if 1 <= height && height <= MAX_DIMENSION {
            Some(Self(height))
        } else {
            None
        }
    }

    /// The height in pixels.
    pub fn value(&self) -> (n: u32)
        ensures
            n == self@,
            valid_dimension(n),
    {
        proof {
            use_type_invariant(self);
        }
        self.0
    }
}

/// Width of the image in pixels: 1 to 30000.
#[derive(Debug, Clone, Copy, PartialEq, Eq)]
pub struct PSDWidth(pub(crate) u32);

impl PSDWidth {
    #[verifier::type_invariant]
    spec fn in_domain(self) -> bool {
        valid_dimension(self.0)
    }

    /// The width in pixels.
    pub closed spec fn view(&self) -> u32 {
        self.0
    }

    /// A width, where `width` is one the format allows.
    pub fn new(width: u32) -> (made: Option<Self>)
        ensures
            made is Some <==> valid_dimension(width),
            made is Some ==> made.unwrap()@ == width,
    {
        if 1 <= width && width <= MAX_DIMENSION {
            Some(Self(width))
        } else {
            None
        }
    }

    /// The width in pixels.
    pub fn value(&self) -> (n: u32)
        ensures
            n == self@,
            valid_dimension(n),
    {
        proof {
            use_type_invariant(self);
        }
        self.0
    }
}

/// Number of bits per channel.
#[derive(Debug, Clone, Copy, PartialEq, Eq)]
pub enum PSDDepth {
    One,
    Eight,
    Sixteen,
    ThirtyTwo,
}

impl PSDDepth {
    /// The number of bits this depth stands for, as the header stores it.
    pub open spec fn spec_bits(self) -> u8 {
        match self {
            PSDDepth::One => 1,
            PSDDepth::Eight => 8,
            PSDDepth::Sixteen => 16,
            PSDDepth::ThirtyTwo => 32,
        }
    }

    /// The depth that the header byte `depth` stands for, if it is one of
    /// 1, 8, 16 and 32.
    pub open spec fn spec_new(depth: u8) -> Option<PSDDepth> {
        if depth == 1 {
            Some(PSDDepth::One)
        } else if depth == 8 {
            Some(PSDDepth::Eight)
        } else if depth == 16 {
            Some(PSDDepth::Sixteen)
        } else if depth == 32 {
            Some(PSDDepth::ThirtyTwo)
        } else {
            None
        }
    }

    /// The depth for a header byte: one of 1, 8, 16 and 32, nothing else.
    pub fn new(depth: u8) -> (made: Option<Self>)
        ensures
            made == Self::spec_new(depth),
            made is Some <==> (depth == 1 || depth == 8 || depth == 16 || depth == 32),
            made is Some ==> made.unwrap().spec_bits() == depth,
    {
        match depth {
            1 => Some(PSDDepth::One),
            8 => Some(PSDDepth::Eight),
            16 => Some(PSDDepth::Sixteen),
            32 => Some(PSDDepth::ThirtyTwo),
            _ => None,
        }
    }

    /// The number of bits per channel.
    pub fn bits(&self) -> (n: u8)
        ensures
            n == self.spec_bits(),
    {
        match self {
            PSDDepth::One => 1,
            PSDDepth::Eight => 8,
            PSDDepth::Sixteen => 16,
            PSDDepth::ThirtyTwo => 32,
        }
    }
}

/// The colour mode of the file.
#[derive(Debug, Clone, Copy, PartialEq, Eq)]
pub enum PSDColorMode {
    Bitmap,
    Grayscale,
    Indexed,
    RGB,
    CMYK,
    Multichannel,
    Duotone,
    Lab,
}

impl PSDColorMode {
    /// The code that the header stores for this colour mode.
    pub open spec fn spec_code(self) -> u8 {
        match self {
            PSDColorMode::Bitmap => 0,
            PSDColorMode::Grayscale => 1,
            PSDColorMode::Indexed => 2,
            PSDColorMode::RGB => 3,
            PSDColorMode::CMYK => 4,
            PSDColorMode::Multichannel => 7,
            PSDColorMode::Duotone => 8,
            PSDColorMode::Lab => 9,
        }
    }

    /// The colour mode that the header byte `color_mode` stands for, if it
    /// is one of 0, 1, 2, 3, 4, 7, 8 and 9.
    pub open spec fn spec_new(color_mode: u8) -> Option<PSDColorMode> {
        if color_mode == 0 {
            Some(PSDColorMode::Bitmap)
        } else if color_mode == 1 {
            Some(PSDColorMode::Grayscale)
        } else if color_mode == 2 {
            Some(PSDColorMode::Indexed)
        } else if color_mode == 3 {
            Some(PSDColorMode::RGB)
        } else if color_mode == 4 {
            Some(PSDColorMode::CMYK)
        } else if color_mode == 7 {
            Some(PSDColorMode::Multichannel)
        } else if color_mode == 8 {
            Some(PSDColorMode::Duotone)
        } else if color_mode == 9 {
            Some(PSDColorMode::Lab)
        } else {
            None
        }
    }

    /// The colour mode for a header byte: one of the eight codes, nothing else.
    pub fn new(color_mode: u8) -> (made: Option<Self>)
        ensures
            made == Self::spec_new(color_mode),
            made is Some <==> (color_mode <= 4 || 7 <= color_mode <= 9),
            made is Some ==> made.unwrap().spec_code() == color_mode,
    {
        match color_mode {
            0 => Some(PSDColorMode::Bitmap),
            1 => Some(PSDColorMode::Grayscale),
            2 => Some(PSDColorMode::Indexed),
            3 => Some(PSDColorMode::RGB),
            4 => Some(PSDColorMode::CMYK),
            7 => Some(PSDColorMode::Multichannel),
            8 => Some(PSDColorMode::Duotone),
            9 => Some(PSDColorMode::Lab),
            _ => None,
        }
    }

    /// The code that the header stores for this colour mode.
    pub fn code(&self) -> (n: u8)
        ensures
            n == self.spec_code(),
    {
        match self {
            PSDColorMode::Bitmap => 0,
            PSDColorMode::Grayscale => 1,
            PSDColorMode::Indexed => 2,
            PSDColorMode::RGB => 3,
            PSDColorMode::CMYK => 4,
            PSDColorMode::Multichannel => 7,
            PSDColorMode::Duotone => 8,
            PSDColorMode::Lab => 9,
        }
    }
}

/// Why a file header was refused.
#[derive(Debug, Clone, Copy, PartialEq, Eq)]
pub enum FileHeaderSectionError {
    /// The buffer does not have the length the format requires.
    IncorrectLength { length: usize },
    /// The first four bytes are not "8BPS".
    InvalidSignature,
    /// Bytes 4 and 5 are not the number one.
    InvalidVersion,
    /// Bytes 6 to 11 are not all zero.
    InvalidReserved,
    /// The channel count is not between 1 and 56.
    ChannelCountOutOfRange { channel_count: u8 },
    /// The height is not between 1 and 30000.
    HeightOutOfRange { height: u32 },
    /// The width is not between 1 and 30000.
    WidthOutOfRange { width: u32 },
    /// The depth is not 1, 8, 16 or 32.
    InvalidDepth { depth: u8 },
    /// The colour mode is not 0, 1, 2, 3, 4, 7, 8 or 9.
    InvalidColorMode { color_mode: u8 },
}

/// The values a file header holds.
pub struct HeaderFields {
    pub version: PSDVersion,
    pub channel_count: u8,
    pub height: u32,
    pub width: u32,
    pub depth: PSDDepth,
    pub color_mode: PSDColorMode,
}

/// The channel count that the header bytes `s` declare: the low byte of the
/// two-byte field at offset 12.
pub open spec fn header_channel_count(s: Seq<u8>) -> u8 {
    s[13]
}

/// The height that the header bytes `s` declare.
pub open spec fn header_height(s: Seq<u8>) -> u32 {
    spec_be_u32(s.subrange(14, 18)) as u32
}

/// The width that the header bytes `s` declare.
pub open spec fn header_width(s: Seq<u8>) -> u32 {
    spec_be_u32(s.subrange(18, 22)) as u32
}

/// The depth byte of the header bytes `s`: the low byte of the field at 22.
pub open spec fn header_depth(s: Seq<u8>) -> u8 {
    s[23]
}

/// The colour mode byte of the header bytes `s`: the low byte of the field at 24.
pub open spec fn header_color_mode(s: Seq<u8>) -> u8 {
    s[25]
}

/// What decoding the header bytes `s` gives: the first field, in file order,
/// that breaks a rule decides the error; where none does, the header's values.
pub open spec fn decode_header(s: Seq<u8>) -> Result<HeaderFields, FileHeaderSectionError> {
    if s.len() != FILE_HEADER_LENGTH {
        Err(FileHeaderSectionError::IncorrectLength { length: s.len() as usize })
    } else if !has_psd_signature(s) {
        Err(FileHeaderSectionError::InvalidSignature)
    } else if !has_psd_version(s) {
        Err(FileHeaderSectionError::InvalidVersion)
    } else if !has_zero_reserved(s) {
        Err(FileHeaderSectionError::InvalidReserved)
    } else if !valid_channel_count(header_channel_count(s)) {
        Err(
            FileHeaderSectionError::ChannelCountOutOfRange {
                channel_count: header_channel_count(s),
            },
        )
    } else if !valid_dimension(header_height(s)) {
        Err(FileHeaderSectionError::HeightOutOfRange { height: header_height(s) })
    } else if !valid_dimension(header_width(s)) {
        Err(FileHeaderSectionError::WidthOutOfRange { width: header_width(s) })
    } else if PSDDepth::spec_new(header_depth(s)) is None {
        Err(FileHeaderSectionError::InvalidDepth { depth: header_depth(s) })
    } else if PSDColorMode::spec_new(header_color_mode(s)) is None {
        Err(FileHeaderSectionError::InvalidColorMode { color_mode: header_color_mode(s) })
    } else {
        Ok(
            HeaderFields {
                version: PSDVersion::One,
                channel_count: header_channel_count(s),
                height: header_height(s),
                width: header_width(s),
                depth: PSDDepth::spec_new(header_depth(s)).unwrap(),
                color_mode: PSDColorMode::spec_new(header_color_mode(s)).unwrap(),
            },
        )
    }
}

/// Every field of `fields` is within its domain.
pub open spec fn valid_header_fields(fields: HeaderFields) -> bool {
    &&& valid_channel_count(fields.channel_count)
    &&& valid_dimension(fields.height)
    &&& valid_dimension(fields.width)
}

/// The 26 header bytes that stand for `fields`.
pub open spec fn encode_header(fields: HeaderFields) -> Seq<u8> {
    seq![56u8, 66, 80, 83, 0, 1, 0, 0, 0, 0, 0, 0, 0, fields.channel_count] + be_bytes_of_u32(
        fields.height,
    ) + be_bytes_of_u32(fields.width) + seq![
        0u8,
        fields.depth.spec_bits(),
        0u8,
        fields.color_mode.spec_code(),
    ]
}

/// The error that a changed byte at `index` of the fixed part of a header
/// gives: the signature's, the version's or the reserved field's.
pub open spec fn fixed_region_error(index: int) -> FileHeaderSectionError {
    if index < 4 {
        FileHeaderSectionError::InvalidSignature
    } else if index < 6 {
        FileHeaderSectionError::InvalidVersion
    } else {
        FileHeaderSectionError::InvalidReserved
    }
}

/// Decoding the bytes that stand for valid header values succeeds, and
/// gives back every one of those values.
pub proof fn lemma_decode_encoded_header(fields: HeaderFields)
    requires
        valid_header_fields(fields),
    ensures
        encode_header(fields).len() == FILE_HEADER_LENGTH,
        decode_header(encode_header(fields)) == Ok::<HeaderFields, FileHeaderSectionError>(fields),
{
    let s = encode_header(fields);
    lemma_be_u32_round_trip(fields.height);
    lemma_be_u32_round_trip(fields.width);
    assert(s.subrange(14, 18) =~= be_bytes_of_u32(fields.height));
    assert(s.subrange(18, 22) =~= be_bytes_of_u32(fields.width));
}

/// Bytes of any length but 26 are refused with a length error that carries
/// their length.
pub proof fn lemma_wrong_length_is_refused(s: Seq<u8>)
    requires
        s.len() != FILE_HEADER_LENGTH,
        s.len() <= usize::MAX,
    ensures
        decode_header(s) == Err::<HeaderFields, FileHeaderSectionError>(
            FileHeaderSectionError::IncorrectLength { length: s.len() as usize },
        ),
        (FileHeaderSectionError::IncorrectLength { length: s.len() as usize })->length == s.len(),
{
}

/// Changing one byte of the signature, the version or the reserved field of
/// a header that decodes gives the error of the field the byte lies in, and
/// no other.
pub proof fn lemma_changed_fixed_byte_is_refused(s: Seq<u8>, index: int, byte: u8)
    requires
        decode_header(s) is Ok,
        0 <= index < 12,
        byte != s[index],
    ensures
        decode_header(s.update(index, byte)) == Err::<HeaderFields, FileHeaderSectionError>(
            fixed_region_error(index),
        ),
{
    let changed = s.update(index, byte);
    if index >= 6 {
        assert(changed[index] != 0);
    }
}

/// The decoded file header: every field is within its domain.
#[derive(Debug, Clone, Copy, PartialEq, Eq)]
pub struct FileHeaderSection {
    pub(crate) version: PSDVersion,
    pub(crate) channel_count: ChannelCount,
    pub(crate) height: PSDHeight,
    pub(crate) width: PSDWidth,
    pub(crate) depth: PSDDepth,
    pub(crate) color_mode: PSDColorMode,
}

impl FileHeaderSection {
    /// The values this header holds.
    pub closed spec fn view(&self) -> HeaderFields {
        HeaderFields {
            version: self.version,
            channel_count: self.channel_count@,
            height: self.height@,
            width: self.width@,
            depth: self.depth,
            color_mode: self.color_mode,
        }
    }

    /// Decodes the 26 bytes of a file header, checking the fields in file
    /// order and stopping at the first that breaks a rule.
    pub fn from_bytes(bytes: &[u8]) -> (decoded: Result<FileHeaderSection, FileHeaderSectionError>)
        ensures
            match decoded {
                Ok(header) => decode_header(bytes@) == Ok::<HeaderFields, FileHeaderSectionError>(
                    header@,
                ),
                Err(error) => decode_header(bytes@) == Err::<HeaderFields, FileHeaderSectionError>(
                    error,
                ),
            },
    {
        if bytes.len() != FILE_HEADER_LENGTH {
            return Err(FileHeaderSectionError::IncorrectLength { length: bytes.len() });
        }
        let mut cursor = PSDCursor::new(bytes);

        let signature = cursor.read_4bytes();
        if !starts_with_psd_signature(signature) {
            return Err(FileHeaderSectionError::InvalidSignature);
        }
        let version = cursor.read_2bytes();
        if !(version[0] == 0 && version[1] == 1) {
            return Err(FileHeaderSectionError::InvalidVersion);
        }
        let reserved = cursor.read_6bytes();
        let zero_reserved = all_zero(reserved);
        proof {
            if zero_reserved {
                assert forall|i: int| 6 <= i < 12 implies bytes@[i] == 0 by {
                    assert(reserved@[i - 6] == 0);
                }
            }
        }
        if !zero_reserved {
            return Err(FileHeaderSectionError::InvalidReserved);
        }
        let channel_count: u8 = (cursor.read_2bytes_as_u16() % 256) as u8;
        let channel_count = match ChannelCount::new(channel_count) {
            Some(made) => made,
            None => {
                return Err(FileHeaderSectionError::ChannelCountOutOfRange { channel_count });
            },
        };
        let height: u32 = cursor.read_4bytes_as_u32();
        let height = match PSDHeight::new(height) {
            Some(made) => made,
            None => {
                return Err(FileHeaderSectionError::HeightOutOfRange { height });
            },
        };
        let width: u32 = cursor.read_4bytes_as_u32();
        let width = match PSDWidth::new(width) {
            Some(made) => made,
            None => {
                return Err(FileHeaderSectionError::WidthOutOfRange { width });
            },
        };
        let depth: u8 = cursor.read_2bytes()[1];
        let depth = match PSDDepth::new(depth) {
            Some(made) => made,
            None => {
                return Err(FileHeaderSectionError::InvalidDepth { depth });
            },
        };
        let color_mode: u8 = cursor.read_2bytes()[1];
        let color_mode = match PSDColorMode::new(color_mode) {
            Some(made) => made,
            None => {
                return Err(FileHeaderSectionError::InvalidColorMode { color_mode });
            },
        };
        Ok(
            FileHeaderSection {
                version: PSDVersion::One,
                channel_count,
                height,
                width,
                depth,
                color_mode,
            },
        )
    }

    /// The file format's version.
    pub fn version(&self) -> (version: PSDVersion)
        ensures
            version == self@.version,
    {
        self.version
    }

    /// Number of channels, alpha channels included.
    pub fn channel_count(&self) -> (n: u8)
        ensures
            n == self@.channel_count,
            valid_channel_count(n),
    {
        self.channel_count.value()
    }

    /// Height of the image in pixels.
    pub fn height(&self) -> (n: u32)
        ensures
            n == self@.height,
            valid_dimension(n),
    {
        self.height.value()
    }

    /// Width of the image in pixels.
    pub fn width(&self) -> (n: u32)
        ensures
            n == self@.width,
            valid_dimension(n),
    {
        self.width.value()
    }

    /// Number of bits per channel.
    pub fn depth(&self) -> (depth: PSDDepth)
        ensures
            depth == self@.depth,
    {
        self.depth
    }

    /// The colour mode of the file.
    pub fn color_mode(&self) -> (mode: PSDColorMode)
        ensures
            mode == self@.color_mode,
    {
        self.color_mode
    }
}

/// True when every byte of `bytes` is zero.
pub fn all_zero(bytes: &[u8]) -> (zero: bool)
    ensures
        zero == (forall|i: int| 0 <= i < bytes@.len() ==> bytes@[i] == 0),
{
    let mut i: usize = 0;
    while i < bytes.len()
        invariant
            i <= bytes@.len(),
            forall|j: int| 0 <= j < i ==> bytes@[j] == 0,
        decreases bytes@.len() - i,
    {
        if bytes[i] != 0 {
            return false;
        }
        i += 1;
    }
    true
}

} // verus!
