use crate::sections::file_header_section::decode_header;
use crate::sections::file_header_section::FileHeaderSection;
use crate::sections::file_header_section::FileHeaderSectionError;
use crate::sections::file_header_section::HeaderFields;
use crate::sections::file_header_section::FILE_HEADER_LENGTH;
use crate::sections::image_resources_section::block_stream;
use crate::sections::image_resources_section::decode_blocks;
use crate::sections::image_resources_section::decode_resources;
use crate::sections::image_resources_section::lemma_data_ranges_in_bounds;
use crate::sections::image_resources_section::ByteRange;
use crate::sections::image_resources_section::ImageResourcesSection;
use crate::sections::image_resources_section::ImageResourcesSectionError;
use crate::sections::image_resources_section::ResourceBlockFields;
use crate::sections::major_sections::color_mode_data_part;
use crate::sections::major_sections::file_header_part;
use crate::sections::major_sections::image_data_part;
use crate::sections::major_sections::image_resources_region;
use crate::sections::major_sections::image_resources_start;
use crate::sections::major_sections::layer_and_mask_information_part;
use crate::sections::major_sections::lemma_parts_make_up_the_file;
use crate::sections::major_sections::split_error;
use crate::sections::major_sections::MajorSections;
use vstd::prelude::*;
use vstd::slice::slice_subrange;

pub mod sections;

verus! {

/// Why a document was refused, by the stage that refused it.
#[derive(Debug, Clone, Copy, PartialEq, Eq)]
pub enum PSDError {
    /// The file could not be split into its major sections.
    SectionsError(FileHeaderSectionError),
    /// The file header was refused.
    HeaderError(FileHeaderSectionError),
    /// The image resources section was refused.
    ResourcesError(ImageResourcesSectionError),
}

/// Why the file bytes `s` are refused, if they are: the error of the first
/// stage that fails, of splitting, decoding the header and decoding the
/// image resources, in that order. The image resources are decoded from
/// the framed section, which begins with its length field.
pub open spec fn document_error(s: Seq<u8>) -> Option<PSDError> {
    match split_error(s) {
        Some(error) => Some(PSDError::SectionsError(error)),
        None => match decode_header(file_header_part(s)) {
            Err(error) => Some(PSDError::HeaderError(error)),
            Ok(_) => match decode_resources(image_resources_region(s)) {
                Err(error) => Some(PSDError::ResourcesError(error)),
                Ok(_) => None,
            },
        },
    }
}

/// A decoded document. It borrows the file's bytes and copies none of them.
#[derive(Debug, PartialEq, Eq)]
pub struct PSD<'a> {
    file_header_section: FileHeaderSection,
    image_resources_section: ImageResourcesSection,
    color_mode_data: &'a [u8],
    image_resources_region: &'a [u8],
    image_resources_offset: usize,
    layer_and_mask_information: &'a [u8],
    image_data: &'a [u8],
}

impl<'a> PSD<'a> {
    #[verifier::type_invariant]
    spec fn ranges_in_bounds(self) -> bool {
        &&& self.image_resources_offset + self.image_resources_region@.len() <= usize::MAX
        &&& forall|i: int|
            0 <= i < self.image_resources_section@.len() ==> {
                let range = (#[trigger] self.image_resources_section@[i]).data_range;
                range.start <= range.end <= self.image_resources_region@.len()
            }
    }

    /// The values of the file header.
    pub closed spec fn header_fields(&self) -> HeaderFields {
        self.file_header_section@
    }

    /// What the resource blocks hold, in file order. Their data ranges are
    /// offsets into the framed image resources section, which begins with
    /// its length field.
    pub closed spec fn resource_blocks(&self) -> Seq<ResourceBlockFields> {
        self.image_resources_section@
    }

    /// The bytes of the colour mode data, without the length field.
    pub closed spec fn color_mode_data_bytes(&self) -> Seq<u8> {
        self.color_mode_data@
    }

    /// The bytes of the framed image resources section: its length field
    /// and the image resources behind it.
    pub closed spec fn image_resources_region_bytes(&self) -> Seq<u8> {
        self.image_resources_region@
    }

    /// Offset in the file at which the framed image resources section
    /// starts: the offset of its length field.
    pub closed spec fn image_resources_position(&self) -> int {
        self.image_resources_offset as int
    }

    /// The bytes of the layer and mask information, without the length field.
    pub closed spec fn layer_and_mask_information_bytes(&self) -> Seq<u8> {
        self.layer_and_mask_information@
    }

    /// The bytes of the image data.
    pub closed spec fn image_data_bytes(&self) -> Seq<u8> {
        self.image_data@
    }

    /// This document is what the file bytes `s` decode to.
    pub open spec fn describes(&self, s: Seq<u8>) -> bool {
        &&& decode_header(file_header_part(s)) == Ok::<HeaderFields, FileHeaderSectionError>(
            self.header_fields(),
        )
        &&& decode_resources(image_resources_region(s)) == Ok::<
            Seq<ResourceBlockFields>,
            ImageResourcesSectionError,
        >(self.resource_blocks())
        &&& self.color_mode_data_bytes() == color_mode_data_part(s)
        &&& self.image_resources_region_bytes() == image_resources_region(s)
        &&& self.image_resources_position() == image_resources_start(s)
        &&& self.layer_and_mask_information_bytes() == layer_and_mask_information_part(s)
        &&& self.image_data_bytes() == image_data_part(s)
    }

    /// Decodes a file: splits it into its major sections, decodes the header,
    /// then the image resources. The first stage that fails decides the
    /// error; there is no partial document.
    pub fn from_bytes(bytes: &'a [u8]) -> (parsed: Result<PSD<'a>, PSDError>)
        ensures
            match parsed {
                Ok(psd) => document_error(bytes@) is None && psd.describes(bytes@),
                Err(error) => document_error(bytes@) == Some(error),
            },
    {
        let major_sections = match MajorSections::from_bytes(bytes) {
            Ok(sections) => sections,
            Err(error) => {
                return Err(PSDError::SectionsError(error));
            },
        };
        let file_header_section = match FileHeaderSection::from_bytes(
            major_sections.file_header(),
        ) {
            Ok(header) => header,
            Err(error) => {
                return Err(PSDError::HeaderError(error));
            },
        };
        let color_mode_data: &'a [u8] = major_sections.color_mode_data();
        let image_resources: &'a [u8] = major_sections.image_resources();
        proof {
            lemma_parts_make_up_the_file(bytes@);
            assert(bytes@.len() == bytes.len());
        }
        let region_start: usize = FILE_HEADER_LENGTH + 4 + color_mode_data.len();
        let region_end: usize = region_start + 4 + image_resources.len();
        let image_resources_region: &'a [u8] = slice_subrange(bytes, region_start, region_end);
        let image_resources_section = match ImageResourcesSection::from_bytes(
            image_resources_region,
        ) {
            Ok(section) => section,
            Err(error) => {
                return Err(PSDError::ResourcesError(error));
            },
        };
        proof {
            lemma_data_ranges_in_bounds(block_stream(image_resources_region@), 4);
            assert(decode_blocks(block_stream(image_resources_region@), 4).unwrap()
                == image_resources_section@);
        }
        Ok(
            PSD {
                file_header_section,
                image_resources_section,
                color_mode_data,
                image_resources_region,
                image_resources_offset: region_start,
                layer_and_mask_information: major_sections.layer_and_mask_information(),
                image_data: major_sections.image_data(),
            },
        )
    }

    /// The decoded file header.
    pub fn file_header_section(&self) -> (header: &FileHeaderSection)
        ensures
            header@ == self.header_fields(),
    {
        &self.file_header_section
    }

    /// The decoded image resources.
    pub fn image_resources_section(&self) -> (section: &ImageResourcesSection)
        ensures
            section@ == self.resource_blocks(),
    {
        &self.image_resources_section
    }

    /// The colour mode data, without the length field before it.
    pub fn color_mode_data(&self) -> (bytes: &'a [u8])
        ensures
            bytes@ == self.color_mode_data_bytes(),
    {
        self.color_mode_data
    }

    /// The framed image resources section, its length field and the image
    /// resources behind it: the bytes that the data ranges of the resource
    /// blocks index.
    pub fn image_resources_region(&self) -> (bytes: &'a [u8])
        ensures
            bytes@ == self.image_resources_region_bytes(),
    {
        self.image_resources_region
    }

    /// The layer and mask information, without the length field before it.
    pub fn layer_and_mask_information(&self) -> (bytes: &'a [u8])
        ensures
            bytes@ == self.layer_and_mask_information_bytes(),
    {
        self.layer_and_mask_information
    }

    /// The image data: what is left of the file behind the other sections.
    pub fn image_data(&self) -> (bytes: &'a [u8])
        ensures
            bytes@ == self.image_data_bytes(),
    {
        self.image_data
    }

    /// Offset in the file at which the framed image resources section
    /// starts: the offset of its length field.
    pub fn image_resources_offset(&self) -> (offset: usize)
        ensures
            offset == self.image_resources_position(),
    {
        self.image_resources_offset
    }

    /// Where in the file the data of the resource block at `index` lies,
    /// padding included.
    pub fn resource_range_in_file(&self, index: usize) -> (range: ByteRange)
        requires
            index < self.resource_blocks().len(),
        ensures
            range.start == self.image_resources_position()
                + self.resource_blocks()[index as int].data_range.start,
            range.end == self.image_resources_position()
                + self.resource_blocks()[index as int].data_range.end,
            range.start <= range.end,
    {
        proof {
            use_type_invariant(self);
            assert(self.image_resources_region@.len() == self.image_resources_region.len());
        }
        let range = self.image_resources_section.block(index).data_range;
        ByteRange {
            start: self.image_resources_offset + range.start,
            end: self.image_resources_offset + range.end,
        }
    }

    /// The data of the resource block at `index`, padding included.
    pub fn resource_data(&self, index: usize) -> (bytes: &'a [u8])
        requires
            index < self.resource_blocks().len(),
        ensures
            bytes@ == self.image_resources_region_bytes().subrange(
                self.resource_blocks()[index as int].data_range.start as int,
                self.resource_blocks()[index as int].data_range.end as int,
            ),
    {
        proof {
            use_type_invariant(self);
        }
        let range = self.image_resources_section.block(index).data_range;
        slice_subrange(self.image_resources_region, range.start, range.end)
    }
}

} // verus!
