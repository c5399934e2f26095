use crate::sections::file_header_section::has_psd_signature;
use crate::sections::file_header_section::starts_with_psd_signature;
use crate::sections::file_header_section::FileHeaderSectionError;
use crate::sections::file_header_section::FILE_HEADER_LENGTH;
use crate::sections::psd_cursor::spec_be_u32;
use crate::sections::psd_cursor::PSDCursor;
use vstd::prelude::*;
use vstd::slice::slice_subrange;

verus! {

/// Length that the length-framed section at `start` declares for its payload.
pub open spec fn framed_len(s: Seq<u8>, start: int) -> int {
    spec_be_u32(s.subrange(start, start + 4))
}

/// Offset just behind the length-framed section at `start`: behind its
/// four-byte length and the payload of that length.
pub open spec fn framed_end(s: Seq<u8>, start: int) -> int {
    start + 4 + framed_len(s, start)
}

/// The length-framed section at `start` lies within `s`, length field and
/// payload both.
pub open spec fn frame_fits(s: Seq<u8>, start: int) -> bool {
    start + 4 <= s.len() && framed_end(s, start) <= s.len()
}

/// The four bytes of the length field at `start`.
pub open spec fn length_field(s: Seq<u8>, start: int) -> Seq<u8> {
    s.subrange(start, start + 4)
}

/// The payload of the length-framed section at `start`: the bytes behind
/// its length field, as many as that field declares.
pub open spec fn framed_payload(s: Seq<u8>, start: int) -> Seq<u8> {
    s.subrange(start + 4, framed_end(s, start))
}

/// Offset at which the colour mode data section starts, with its length
/// field: behind the header.
pub open spec fn color_mode_data_start(s: Seq<u8>) -> int {
    FILE_HEADER_LENGTH as int
}

/// Offset at which the image resources section starts, with its length
/// field.
pub open spec fn image_resources_start(s: Seq<u8>) -> int {
    framed_end(s, color_mode_data_start(s))
}

/// Offset at which the layer and mask information section starts, with
/// its length field.
pub open spec fn layer_and_mask_information_start(s: Seq<u8>) -> int {
    framed_end(s, image_resources_start(s))
}

/// Offset at which the image data starts; it runs to the end of the file.
pub open spec fn image_data_start(s: Seq<u8>) -> int {
    framed_end(s, layer_and_mask_information_start(s))
}

/// The header bytes of the file bytes `s`.
pub open spec fn file_header_part(s: Seq<u8>) -> Seq<u8> {
    s.subrange(0, color_mode_data_start(s))
}

/// The colour mode data of the file bytes `s`: the bytes behind the
/// section's length field.
pub open spec fn color_mode_data_part(s: Seq<u8>) -> Seq<u8> {
    framed_payload(s, color_mode_data_start(s))
}

/// The image resources of the file bytes `s`: the bytes behind the
/// section's length field.
pub open spec fn image_resources_part(s: Seq<u8>) -> Seq<u8> {
    framed_payload(s, image_resources_start(s))
}

/// The layer and mask information of the file bytes `s`: the bytes behind
/// the section's length field.
pub open spec fn layer_and_mask_information_part(s: Seq<u8>) -> Seq<u8> {
    framed_payload(s, layer_and_mask_information_start(s))
}

/// The image resources section of the file bytes `s` as it is framed: its
/// length field followed by the image resources.
pub open spec fn image_resources_region(s: Seq<u8>) -> Seq<u8> {
    s.subrange(image_resources_start(s), layer_and_mask_information_start(s))
}

/// The image data of the file bytes `s`.
pub open spec fn image_data_part(s: Seq<u8>) -> Seq<u8> {
    s.subrange(image_data_start(s), s.len() as int)
}

/// Why the file bytes `s` cannot be split, if they cannot: the file is
/// shorter than a header, does not carry the signature, or one of its three
/// length-framed sections runs past its end.
pub open spec fn split_error(s: Seq<u8>) -> Option<FileHeaderSectionError> {
    if s.len() < FILE_HEADER_LENGTH {
        Some(FileHeaderSectionError::IncorrectLength { length: s.len() as usize })
    } else if !has_psd_signature(s) {
        Some(FileHeaderSectionError::InvalidSignature)
    } else if !frame_fits(s, color_mode_data_start(s)) || !frame_fits(s, image_resources_start(s))
        || !frame_fits(s, layer_and_mask_information_start(s)) {
        Some(FileHeaderSectionError::IncorrectLength { length: s.len() as usize })
    } else {
        None
    }
}

/// The five parts of a file that can be split, with the length fields of
/// the three in the middle before them, follow one another without a gap
/// and make up the whole file. Each of the three is as long as its length
/// field declares, and the framed image resources section is its length
/// field followed by the image resources.
pub proof fn lemma_parts_make_up_the_file(s: Seq<u8>)
    requires
        split_error(s) is None,
    ensures
        file_header_part(s) + length_field(s, color_mode_data_start(s)) + color_mode_data_part(s)
            + length_field(s, image_resources_start(s)) + image_resources_part(s) + length_field(
            s,
            layer_and_mask_information_start(s),
        ) + layer_and_mask_information_part(s) + image_data_part(s) == s,
        file_header_part(s).len() == FILE_HEADER_LENGTH,
        color_mode_data_part(s).len() == framed_len(s, color_mode_data_start(s)),
        image_resources_part(s).len() == framed_len(s, image_resources_start(s)),
        layer_and_mask_information_part(s).len() == framed_len(
            s,
            layer_and_mask_information_start(s),
        ),
        image_resources_region(s) == length_field(s, image_resources_start(s))
            + image_resources_part(s),
        image_data_start(s) <= s.len(),
{
    assert(file_header_part(s) + length_field(s, color_mode_data_start(s)) + color_mode_data_part(s)
        + length_field(s, image_resources_start(s)) + image_resources_part(s) + length_field(
        s,
        layer_and_mask_information_start(s),
    ) + layer_and_mask_information_part(s) + image_data_part(s) =~= s);
    assert(image_resources_region(s) =~= length_field(s, image_resources_start(s))
        + image_resources_part(s));
}

/// The five major parts of a file, each a slice of the file's bytes:
///
/// | part                       | length   |
/// |----------------------------|----------|
/// | file header                | 26 bytes |
/// | colour mode data           | variable |
/// | image resources            | variable |
/// | layer and mask information | variable |
/// | image data                 | variable |
///
/// The three parts in the middle are each framed by a four-byte length in
/// front of them; a slice holds what lies behind that length field.
#[derive(Debug, Clone, Copy, PartialEq, Eq)]
pub struct MajorSections<'a> {
    pub(crate) file_header: &'a [u8],
    pub(crate) color_mode_data: &'a [u8],
    pub(crate) image_resources: &'a [u8],
    pub(crate) layer_and_mask_information: &'a [u8],
    pub(crate) image_data: &'a [u8],
}

impl<'a> MajorSections<'a> {
    /// These are the five parts of the file bytes `s`, at the offsets that
    /// the length fields of `s` give.
    pub open spec fn splits(&self, s: Seq<u8>) -> bool {
        &&& self.file_header_bytes() == file_header_part(s)
        &&& self.color_mode_data_bytes() == color_mode_data_part(s)
        &&& self.image_resources_bytes() == image_resources_part(s)
        &&& self.layer_and_mask_information_bytes() == layer_and_mask_information_part(s)
        &&& self.image_data_bytes() == image_data_part(s)
    }

    /// Splits a file into its five major parts, moving from one length
    /// field to the next. The header is taken as it is, checked only for
    /// its length and signature.
    pub fn from_bytes(bytes: &'a [u8]) -> (split: Result<MajorSections<'a>, FileHeaderSectionError>)
        ensures
            match split {
                Ok(sections) => split_error(bytes@) is None && sections.splits(bytes@),
                Err(error) => split_error(bytes@) == Some(error),
            },
    {
        if bytes.len() < FILE_HEADER_LENGTH {
            return Err(FileHeaderSectionError::IncorrectLength { length: bytes.len() });
        }
        let mut cursor = PSDCursor::new(bytes);
        let signature = cursor.peek_4bytes();
        if !starts_with_psd_signature(signature) {
            return Err(FileHeaderSectionError::InvalidSignature);
        }
        let file_header = cursor.read(FILE_HEADER_LENGTH as u32);

        let color_mode = match checked_major_section(&mut cursor) {
            Some(range) => range,
            None => {
                return Err(FileHeaderSectionError::IncorrectLength { length: bytes.len() });
            },
        };
        let image_resources = match checked_major_section(&mut cursor) {
            Some(range) => range,
            None => {
                return Err(FileHeaderSectionError::IncorrectLength { length: bytes.len() });
            },
        };
        let layer_and_mask = match checked_major_section(&mut cursor) {
            Some(range) => range,
            None => {
                return Err(FileHeaderSectionError::IncorrectLength { length: bytes.len() });
            },
        };
        let image_data = slice_subrange(bytes, layer_and_mask.1, bytes.len());
        Ok(
            MajorSections {
                file_header,
                color_mode_data: slice_subrange(bytes, color_mode.0, color_mode.1),
                image_resources: slice_subrange(bytes, image_resources.0, image_resources.1),
                layer_and_mask_information: slice_subrange(
                    bytes,
                    layer_and_mask.0,
                    layer_and_mask.1,
                ),
                image_data,
            },
        )
    }

    /// The 26 bytes of the file header.
    pub fn file_header(&self) -> (bytes: &'a [u8])
        ensures
            bytes@ == self.file_header_bytes(),
    {
        self.file_header
    }

    /// The colour mode data, without the length field before it.
    pub fn color_mode_data(&self) -> (bytes: &'a [u8])
        ensures
            bytes@ == self.color_mode_data_bytes(),
    {
        self.color_mode_data
    }

    /// The image resources, without the length field before them.
    pub fn image_resources(&self) -> (bytes: &'a [u8])
        ensures
            bytes@ == self.image_resources_bytes(),
    {
        self.image_resources
    }

    /// The layer and mask information, without the length field before it.
    pub fn layer_and_mask_information(&self) -> (bytes: &'a [u8])
        ensures
            bytes@ == self.layer_and_mask_information_bytes(),
    {
        self.layer_and_mask_information
    }

    /// The image data: what is left of the file behind the other parts.
    pub fn image_data(&self) -> (bytes: &'a [u8])
        ensures
            bytes@ == self.image_data_bytes(),
    {
        self.image_data
    }

    /// The bytes of the file header.
    pub closed spec fn file_header_bytes(&self) -> Seq<u8> {
        self.file_header@
    }

    /// The bytes of the colour mode data, without the length field.
    pub closed spec fn color_mode_data_bytes(&self) -> Seq<u8> {
        self.color_mode_data@
    }

    /// The bytes of the image resources, without the length field.
    pub closed spec fn image_resources_bytes(&self) -> Seq<u8> {
        self.image_resources@
    }

    /// The bytes of the layer and mask information, without the length field.
    pub closed spec fn layer_and_mask_information_bytes(&self) -> Seq<u8> {
        self.layer_and_mask_information@
    }

    /// The bytes of the image data.
    pub closed spec fn image_data_bytes(&self) -> Seq<u8> {
        self.image_data@
    }
}

/// Reads the length field at the cursor, steps over the section that it
/// frames, and returns the offsets at which that section starts and ends:
/// the bytes behind the length field, as many as it declares.
pub fn read_major_section_start_end_pos(cursor: &mut PSDCursor) -> (range: (usize, usize))
    requires
        frame_fits(old(cursor).buffer(), old(cursor).offset()),
    ensures
        final(cursor).buffer() == old(cursor).buffer(),
        range.0 == old(cursor).offset() + 4,
        range.1 == framed_end(old(cursor).buffer(), old(cursor).offset()),
        final(cursor).offset() == range.1,
{
    let data_length: u32 = cursor.read_4bytes_as_u32();
    let start: usize = cursor.position() as usize;
    cursor.read(data_length);
    let end: usize = cursor.position() as usize;
    (start, end)
}

/// Steps over the length-framed section at the cursor where it lies within
/// the buffer, and returns the offsets of the bytes behind its length
/// field; where it does not, leaves the cursor as it is.
pub fn checked_major_section(cursor: &mut PSDCursor) -> (range: Option<(usize, usize)>)
    ensures
        final(cursor).buffer() == old(cursor).buffer(),
        range is Some <==> frame_fits(old(cursor).buffer(), old(cursor).offset()),
        match range {
            Some(range) => {
                &&& range.0 == old(cursor).offset() + 4
                &&& range.1 == framed_end(old(cursor).buffer(), old(cursor).offset())
                &&& final(cursor).offset() == range.1
            },
            None => final(cursor).offset() == old(cursor).offset(),
        },
{
    let left: usize = cursor.remaining();
    if left < 4 {
        return None;
    }
    let declared: u32 = crate::sections::psd_cursor::u32_from_be_bytes(cursor.peek_4bytes());
    if left - 4 < declared as usize {
        return None;
    }
    Some(read_major_section_start_end_pos(cursor))
}

} // verus!
