use psd_rs::sections::image_resources_section::ByteRange;
use psd_rs::sections::image_resources_section::ImageResourcesSection;
use psd_rs::sections::image_resources_section::ImageResourcesSectionError;
use psd_rs::sections::image_resources_section::ResourceKind;
use psd_rs::sections::psd_cursor::PSDCursor;

fn resource_block(id: i16, name: &[u8], data: &[u8]) -> Vec<u8> {
    let mut block = vec![0x38, 0x42, 0x49, 0x4D];
    block.extend_from_slice(&id.to_be_bytes());
    block.push(name.len() as u8);
    block.extend_from_slice(name);
    if name.len() % 2 == 0 {
        block.push(0);
    }
    block.extend_from_slice(&(data.len() as u32).to_be_bytes());
    block.extend_from_slice(data);
    if data.len() % 2 == 1 {
        block.push(0);
    }
    block
}

fn resources_of(blocks: &[Vec<u8>]) -> Vec<u8> {
    let total: usize = blocks.iter().map(|block| block.len()).sum();
    let mut section = (total as u32).to_be_bytes().to_vec();
    for block in blocks {
        section.extend_from_slice(block);
    }
    section
}

#[test]
fn declared_length_zero_gives_no_blocks() {
    let section = ImageResourcesSection::from_bytes(&[0, 0, 0, 0]).unwrap();
    assert_eq!(section.len(), 0);
    let with_trailing = ImageResourcesSection::from_bytes(&[0, 0, 0, 0, 0x38, 0x42]).unwrap();
    assert_eq!(with_trailing.len(), 0);
}

#[test]
fn blocks_come_back_in_file_order() {
    let bytes = resources_of(&[
        resource_block(1005, b"", &[1, 2, 3, 4]),
        resource_block(1050, b"slices", &[9, 9, 9]),
        resource_block(-3, b"abc", &[]),
        resource_block(1005, b"", &[7]),
    ]);

    let section = ImageResourcesSection::from_bytes(&bytes).unwrap();

    assert_eq!(section.len(), 4);
    let first = section.block(0);
    assert_eq!(first.resource_id, 1005);
    assert_eq!(first.name, "");
    assert_eq!(first.data_range, ByteRange { start: 16, end: 20 });
    assert_eq!(first.kind(), ResourceKind::Other);
    let second = section.block(1);
    assert_eq!(second.resource_id, 1050);
    assert_eq!(second.name, "slices");
    assert_eq!(second.data_range, ByteRange { start: 38, end: 42 });
    assert_eq!(&bytes[38..42], &[9, 9, 9, 0]);
    assert_eq!(second.kind(), ResourceKind::SlicesInfo);
    let third = section.block(2);
    assert_eq!(third.resource_id, -3);
    assert_eq!(third.name, "abc");
    assert_eq!(third.data_range, ByteRange { start: 56, end: 56 });
    let fourth = section.block(3);
    assert_eq!(fourth.resource_id, 1005);
    assert_eq!(fourth.data_range, ByteRange { start: 68, end: 70 });
    assert_eq!(fourth.data_range.end, bytes.len());
}

#[test]
fn single_block_ends_at_declared_boundary() {
    let bytes = resources_of(&[resource_block(2000, b"ab", &[5, 6])]);
    assert_eq!(bytes.len(), 4 + 16);
    let section = ImageResourcesSection::from_bytes(&bytes).unwrap();
    assert_eq!(section.len(), 1);
    assert_eq!(section.block(0).name, "ab");
    assert_eq!(section.block(0).data_range, ByteRange { start: 18, end: 20 });
}

#[test]
fn block_name_with_invalid_utf8_is_kept_lossy() {
    let bytes = resources_of(&[resource_block(1, &[0xC0, b'k', 0x80], &[])]);
    let section = ImageResourcesSection::from_bytes(&bytes).unwrap();
    assert_eq!(section.block(0).name, "\u{FFFD}k\u{FFFD}");
}

#[test]
fn resources_shorter_than_length_field() {
    for length in [0usize, 1, 3] {
        let bytes = vec![0u8; length];
        assert_eq!(
            ImageResourcesSection::from_bytes(&bytes).unwrap_err(),
            ImageResourcesSectionError::IncorrectLength { length }
        );
    }
}

#[test]
fn resources_shorter_than_declared() {
    let mut bytes = resources_of(&[resource_block(1005, b"", &[1, 2])]);
    bytes.pop();
    assert_eq!(
        ImageResourcesSection::from_bytes(&bytes).unwrap_err(),
        ImageResourcesSectionError::IncorrectLength { length: 17 }
    );
}

#[test]
fn block_with_wrong_signature() {
    let mut bytes = resources_of(&[
        resource_block(1005, b"", &[1, 2]),
        resource_block(1006, b"", &[]),
    ]);
    bytes[4 + 14 + 3] = 0x4E;
    assert_eq!(
        ImageResourcesSection::from_bytes(&bytes).unwrap_err(),
        ImageResourcesSectionError::InvalidSignature
    );
}

#[test]
fn block_data_past_declared_length() {
    let mut bytes = resources_of(&[
        resource_block(1005, b"", &[1, 2]),
        resource_block(1006, b"", &[3, 4]),
    ]);
    // the second block now declares four bytes of data, two more than there are
    bytes[4 + 14 + 11] = 4;
    bytes.extend_from_slice(&[0, 0]);
    assert_eq!(
        ImageResourcesSection::from_bytes(&bytes).unwrap_err(),
        ImageResourcesSectionError::BlockOverrun { offset: 18 }
    );
}

#[test]
fn partial_block_before_declared_length() {
    // three bytes declared: not even a signature
    let bytes = [0u8, 0, 0, 3, 0x38, 0x42, 0x49];
    assert_eq!(
        ImageResourcesSection::from_bytes(&bytes).unwrap_err(),
        ImageResourcesSectionError::BlockOverrun { offset: 4 }
    );
    // a signature and an identifier, and nothing behind them
    let bytes = [0u8, 0, 0, 6, 0x38, 0x42, 0x49, 0x4D, 0, 1];
    assert_eq!(
        ImageResourcesSection::from_bytes(&bytes).unwrap_err(),
        ImageResourcesSectionError::BlockOverrun { offset: 4 }
    );
    // the name runs past the declared length
    let bytes = [0u8, 0, 0, 8, 0x38, 0x42, 0x49, 0x4D, 0, 1, 9, b'a'];
    assert_eq!(
        ImageResourcesSection::from_bytes(&bytes).unwrap_err(),
        ImageResourcesSectionError::BlockOverrun { offset: 4 }
    );
}

#[test]
fn odd_data_length_without_its_pad_byte() {
    let mut bytes = resources_of(&[resource_block(1005, b"", &[1, 2, 3])]);
    assert_eq!(bytes.len(), 4 + 16);
    bytes[3] = 15;
    assert_eq!(
        ImageResourcesSection::from_bytes(&bytes).unwrap_err(),
        ImageResourcesSectionError::BlockOverrun { offset: 4 }
    );
}

#[test]
fn read_one_block_from_a_cursor() {
    let bytes = resource_block(1050, b"n", &[1, 2, 3]);
    let mut cursor = PSDCursor::new(&bytes);
    let block = ImageResourcesSection::read_resource_block(&mut cursor).unwrap();
    assert_eq!(block.resource_id, 1050);
    assert_eq!(block.name, "n");
    assert_eq!(block.data_range, ByteRange { start: 12, end: 16 });
    assert_eq!(cursor.position(), 16);
}

#[test]
fn refused_block_leaves_the_cursor() {
    let bytes = resource_block(1050, b"n", &[1, 2, 3]);
    let mut cursor = PSDCursor::new(&bytes[..15]);
    assert_eq!(
        ImageResourcesSection::read_resource_block(&mut cursor).unwrap_err(),
        ImageResourcesSectionError::BlockOverrun { offset: 0 }
    );
    assert_eq!(cursor.position(), 0);
    let mut cursor = PSDCursor::new(&bytes);
    cursor.read(2);
    assert_eq!(
        ImageResourcesSection::read_resource_block(&mut cursor).unwrap_err(),
        ImageResourcesSectionError::InvalidSignature
    );
    assert_eq!(cursor.position(), 2);
}

#[test]
fn block_declaring_the_largest_data_length() {
    let mut bytes = resources_of(&[resource_block(1005, b"", &[1, 2])]);
    bytes[14..18].copy_from_slice(&[0xFF, 0xFF, 0xFF, 0xFF]);
    assert_eq!(
        ImageResourcesSection::from_bytes(&bytes).unwrap_err(),
        ImageResourcesSectionError::BlockOverrun { offset: 4 }
    );
}

#[test]
fn unknown_and_repeated_identifiers_are_kept() {
    let bytes = resources_of(&[
        resource_block(7, b"", &[]),
        resource_block(7, b"", &[]),
        resource_block(32767, b"", &[]),
        resource_block(-32768, b"", &[]),
    ]);
    let section = ImageResourcesSection::from_bytes(&bytes).unwrap();
    assert_eq!(section.len(), 4);
    assert_eq!(section.block(0).resource_id, 7);
    assert_eq!(section.block(1).resource_id, 7);
    assert_eq!(section.block(2).resource_id, 32767);
    assert_eq!(section.block(3).resource_id, -32768);
    for index in 0..4 {
        assert_eq!(section.block(index).kind(), ResourceKind::Other);
        let range = section.block(index).data_range;
        assert_eq!(range.start, 4 + 12 * (index + 1));
        assert_eq!(range.end, range.start);
    }
}

#[test]
fn bytes_behind_the_declared_length_are_not_read() {
    let mut bytes = resources_of(&[resource_block(1005, b"x", &[1])]);
    let declared_end = bytes.len();
    bytes.extend_from_slice(&[0x38, 0x42, 0x49, 0x4D, 0xFF]);
    let section = ImageResourcesSection::from_bytes(&bytes).unwrap();
    assert_eq!(section.len(), 1);
    assert_eq!(section.block(0).data_range.end, declared_end);
}
