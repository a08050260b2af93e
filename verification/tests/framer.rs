use pcapng::framer::frame_block;
use pcapng::section::SECTION_HEADER_TYPE;
use pcapng::{ByteOrder, ErrorKind};

/// A block with the given type, body and matching leading/trailing lengths.
fn make_block(block_type: u32, body: &[u8], order: ByteOrder) -> Vec<u8> {
    let total = (body.len() + 12) as u32;
    let enc = |v: u32| match order {
        ByteOrder::Little => v.to_le_bytes(),
        ByteOrder::Big => v.to_be_bytes(),
    };
    let mut out = Vec::new();
    out.extend_from_slice(&enc(block_type));
    out.extend_from_slice(&enc(total));
    out.extend_from_slice(body);
    out.extend_from_slice(&enc(total));
    out
}

#[test]
fn round_trip_recovers_type_and_body() {
    for order in [ByteOrder::Little, ByteOrder::Big] {
        let body = [9u8, 8, 7, 6, 5, 4, 3, 2];
        let data = make_block(SECTION_HEADER_TYPE, &body, order);
        let block = frame_block(&data, order).unwrap();
        assert_eq!(SECTION_HEADER_TYPE, block.block_type);
        assert_eq!(&body[..], block.body);
        assert_eq!(data.len(), block.consumed);
        assert_eq!(data.len() - 12, block.body.len());
    }
}

#[test]
fn mutated_trailing_length_is_length_mismatch() {
    let body = [1u8, 2, 3, 4];
    let good = make_block(7, &body, ByteOrder::Little);
    let total = good.len();
    for wrong in [0u32, 1, 11, 12, 15, 0xffff_ffff] {
        if wrong as usize == total {
            continue;
        }
        let mut data = good.clone();
        let at = total - 4;
        data[at..].copy_from_slice(&wrong.to_le_bytes());
        assert_eq!(
            Err(ErrorKind::LengthMismatch),
            frame_block(&data, ByteOrder::Little)
        );
    }
}

#[test]
fn twelve_byte_block_has_empty_body() {
    let data = make_block(0x42, &[], ByteOrder::Little);
    assert_eq!(12, data.len());
    let block = frame_block(&data, ByteOrder::Little).unwrap();
    assert_eq!(0x42, block.block_type);
    assert!(block.body.is_empty());
    assert_eq!(12, block.consumed);
}

#[test]
fn eleven_bytes_is_truncated_regardless_of_content() {
    for fill in [0x00u8, 0x0c, 0xff] {
        let data = [fill; 11];
        assert_eq!(Err(ErrorKind::Truncated), frame_block(&data, ByteOrder::Little));
        assert_eq!(Err(ErrorKind::Truncated), frame_block(&data, ByteOrder::Big));
    }
    assert_eq!(Err(ErrorKind::Truncated), frame_block(&[], ByteOrder::Little));
}

#[test]
fn leading_length_below_minimum_is_invalid() {
    let body = [0u8; 4];
    let mut data = make_block(7, &body, ByteOrder::Little);
    data[4..8].copy_from_slice(&11u32.to_le_bytes());
    assert_eq!(
        Err(ErrorKind::InvalidLength),
        frame_block(&data, ByteOrder::Little)
    );
}

#[test]
fn leading_length_past_end_is_invalid() {
    let body = [0u8; 4];
    let mut data = make_block(7, &body, ByteOrder::Little);
    data[4..8].copy_from_slice(&17u32.to_le_bytes());
    assert_eq!(
        Err(ErrorKind::InvalidLength),
        frame_block(&data, ByteOrder::Little)
    );
}
