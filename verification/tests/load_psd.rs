use psd_rs::sections::file_header_section::FileHeaderSectionError;
use psd_rs::sections::file_header_section::PSDColorMode;
use psd_rs::sections::file_header_section::PSDDepth;
use psd_rs::sections::file_header_section::PSDVersion;
use psd_rs::sections::image_resources_section::ByteRange;
use psd_rs::sections::image_resources_section::ImageResourcesSectionError;
use psd_rs::sections::image_resources_section::ResourceKind;
use psd_rs::PSDError;
use psd_rs::PSD;

fn document_header() -> Vec<u8> {
    vec![
        0x38, 0x42, 0x50, 0x53, 0, 1, 0, 0, 0, 0, 0, 0, 0, 1, 0, 0, 0, 0x0A, 0, 0, 0, 5, 0, 8, 0,
        3,
    ]
}

fn document_with_font_resources() -> Vec<u8> {
    let mut file = document_header();
    // colour mode data: empty
    file.extend_from_slice(&[0, 0, 0, 0]);
    // image resources: two blocks, 14 + 12 bytes
    file.extend_from_slice(&[0, 0, 0, 26]);
    file.extend_from_slice(&[0x38, 0x42, 0x49, 0x4D, 0x04, 0x1A, 0, 0, 0, 0, 0, 1, 0xAA, 0]);
    file.extend_from_slice(&[0x38, 0x42, 0x49, 0x4D, 0x03, 0xED, 0, 0, 0, 0, 0, 0]);
    // layer and mask information: two bytes
    file.extend_from_slice(&[0, 0, 0, 2, 0xFE, 0xFF]);
    // image data
    file.extend_from_slice(&[1, 2, 3]);
    file
}

#[test]
fn load_psd() {
    let file = document_with_font_resources();

    let psd = PSD::from_bytes(&file).unwrap();

    println!("{:?}", psd);
    let header = psd.file_header_section();
    assert_eq!(header.version(), PSDVersion::One);
    assert_eq!(header.channel_count(), 1);
    assert_eq!(header.height(), 10);
    assert_eq!(header.width(), 5);
    assert_eq!(header.depth(), PSDDepth::Eight);
    assert_eq!(header.color_mode(), PSDColorMode::RGB);
    let resources = psd.image_resources_section();
    assert_eq!(resources.len(), 2);
    assert_eq!(resources.block(0).resource_id, 1050);
    assert_eq!(resources.block(0).kind(), ResourceKind::SlicesInfo);
    assert_eq!(resources.block(0).name, "");
    assert_eq!(resources.block(0).data_range, ByteRange { start: 16, end: 18 });
    assert_eq!(psd.resource_data(0), &[0xAA, 0]);
    assert_eq!(psd.image_resources_offset(), 30);
    assert_eq!(psd.resource_range_in_file(0), ByteRange { start: 46, end: 48 });
    assert_eq!(&file[46..48], &[0xAA, 0]);
    assert_eq!(psd.resource_range_in_file(1), ByteRange { start: 60, end: 60 });
    assert_eq!(resources.block(1).resource_id, 1005);
    assert_eq!(resources.block(1).kind(), ResourceKind::Other);
    assert_eq!(resources.block(1).data_range, ByteRange { start: 30, end: 30 });
    assert_eq!(psd.resource_data(1), &[] as &[u8]);
    assert_eq!(psd.color_mode_data(), &[] as &[u8]);
    assert_eq!(psd.image_resources_region().len(), 30);
    assert_eq!(psd.image_resources_region(), &file[30..60]);
    assert_eq!(&psd.image_resources_region()[0..4], &[0, 0, 0, 26]);
    assert_eq!(psd.layer_and_mask_information(), &[0xFE, 0xFF]);
    assert_eq!(psd.image_data(), &[1, 2, 3]);
}

#[test]
fn minimal_document_has_no_resources() {
    let mut file = document_header();
    file.extend_from_slice(&[0, 0, 0, 0]);
    file.extend_from_slice(&[0, 0, 0, 0]);
    file.extend_from_slice(&[0, 0, 0, 0]);
    file.extend_from_slice(&[9, 8, 7, 6, 5]);

    let psd = PSD::from_bytes(&file).unwrap();

    let header = psd.file_header_section();
    assert_eq!(header.channel_count(), 1);
    assert_eq!(header.height(), 10);
    assert_eq!(header.width(), 5);
    assert_eq!(header.depth(), PSDDepth::Eight);
    assert_eq!(header.depth().bits(), 8);
    assert_eq!(header.color_mode(), PSDColorMode::RGB);
    assert_eq!(header.color_mode().code(), 3);
    assert_eq!(psd.image_resources_section().len(), 0);
    assert_eq!(psd.image_data(), &[9, 8, 7, 6, 5]);
    assert_eq!(psd.color_mode_data(), &[] as &[u8]);
    assert_eq!(psd.layer_and_mask_information(), &[] as &[u8]);
    assert_eq!(psd.image_resources_region(), &[0, 0, 0, 0]);
    assert_eq!(psd.image_resources_offset(), 30);
}

#[test]
fn document_without_image_data() {
    let mut file = document_header();
    file.extend_from_slice(&[0, 0, 0, 0, 0, 0, 0, 0, 0, 0, 0, 0]);
    let psd = PSD::from_bytes(&file).unwrap();
    assert_eq!(psd.image_data(), &[] as &[u8]);
}

#[test]
fn short_file_is_a_sections_error() {
    let file = vec![0x38, 0x42, 0x50, 0x53, 0, 1];
    assert_eq!(
        PSD::from_bytes(&file).unwrap_err(),
        PSDError::SectionsError(FileHeaderSectionError::IncorrectLength { length: 6 })
    );
}

#[test]
fn wrong_file_signature_is_a_sections_error() {
    let mut file = document_with_font_resources();
    file[3] = 0x54;
    assert_eq!(
        PSD::from_bytes(&file).unwrap_err(),
        PSDError::SectionsError(FileHeaderSectionError::InvalidSignature)
    );
}

#[test]
fn section_past_the_end_is_a_sections_error() {
    let mut file = document_header();
    file.extend_from_slice(&[0, 0, 0, 0]);
    file.extend_from_slice(&[0, 0, 0, 9, 1, 2]);
    assert_eq!(
        PSD::from_bytes(&file).unwrap_err(),
        PSDError::SectionsError(FileHeaderSectionError::IncorrectLength { length: 36 })
    );
}

#[test]
fn bad_header_field_is_a_header_error() {
    let mut file = document_with_font_resources();
    file[23] = 9;
    assert_eq!(
        PSD::from_bytes(&file).unwrap_err(),
        PSDError::HeaderError(FileHeaderSectionError::InvalidDepth { depth: 9 })
    );
}

#[test]
fn header_error_comes_before_resources_error() {
    let mut file = document_with_font_resources();
    file[5] = 2;
    file[34] = 0;
    assert_eq!(
        PSD::from_bytes(&file).unwrap_err(),
        PSDError::HeaderError(FileHeaderSectionError::InvalidVersion)
    );
}

#[test]
fn bad_block_signature_is_a_resources_error() {
    let mut file = document_with_font_resources();
    file[34] = 0;
    assert_eq!(
        PSD::from_bytes(&file).unwrap_err(),
        PSDError::ResourcesError(ImageResourcesSectionError::InvalidSignature)
    );
}
