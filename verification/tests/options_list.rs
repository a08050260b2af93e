use pcapng::options::{collect_options, OptionCursor};
use pcapng::{ByteOrder, ErrorKind};

#[test]
fn empty_region_yields_empty_sequence() {
    let records = collect_options(&[], ByteOrder::Little).unwrap();
    assert!(records.is_empty());
    let records = collect_options(&[], ByteOrder::Big).unwrap();
    assert!(records.is_empty());
}

#[test]
fn terminator_only_yields_one_option() {
    let region = [0u8, 0, 0, 0];
    let records = collect_options(&region, ByteOrder::Little).unwrap();
    assert_eq!(1, records.len());
    assert_eq!(0, records[0].code);
    assert!(records[0].value.is_empty());
}

#[test]
fn terminator_stops_before_trailing_garbage() {
    let region = [0u8, 0, 0, 0, 0xde, 0xad, 0xbe];
    let records = collect_options(&region, ByteOrder::Big).unwrap();
    assert_eq!(1, records.len());
    assert_eq!(0, records[0].code);
    assert!(records[0].value.is_empty());
}

#[test]
fn value_and_padding_advance_the_cursor() {
    // code 5, length 3, value "abc", one pad byte, then code 6, length 4.
    let region = [
        0x05u8, 0x00, 0x03, 0x00, b'a', b'b', b'c', 0x00, //
        0x06, 0x00, 0x04, 0x00, 1, 2, 3, 4,
    ];
    let records = collect_options(&region, ByteOrder::Little).unwrap();
    assert_eq!(2, records.len());
    assert_eq!(5, records[0].code);
    assert_eq!(b"abc", records[0].value);
    assert_eq!(6, records[1].code);
    assert_eq!(&[1u8, 2, 3, 4][..], records[1].value);
}

#[test]
fn partial_header_is_truncated() {
    let region = [0x05u8, 0x00, 0x03];
    assert_eq!(
        Err(ErrorKind::Truncated),
        collect_options(&region, ByteOrder::Little)
    );
}

#[test]
fn value_past_region_end_is_invalid_length() {
    let region = [0x05u8, 0x00, 0x09, 0x00, 1, 2, 3, 4];
    assert_eq!(
        Err(ErrorKind::InvalidLength),
        collect_options(&region, ByteOrder::Little)
    );
}

#[test]
fn padding_past_region_end_is_truncated() {
    // The 1-byte value fits exactly, but its 3 pad bytes do not.
    let region = [0x05u8, 0x00, 0x01, 0x00, 0xaa];
    assert_eq!(
        Err(ErrorKind::Truncated),
        collect_options(&region, ByteOrder::Little)
    );
}

#[test]
fn big_endian_headers_are_honoured() {
    let region = [0x00u8, 0x07, 0x00, 0x02, 0xca, 0xfe, 0x00, 0x00];
    let records = collect_options(&region, ByteOrder::Big).unwrap();
    assert_eq!(1, records.len());
    assert_eq!(7, records[0].code);
    assert_eq!(&[0xcau8, 0xfe][..], records[0].value);
}

#[test]
fn cursor_yields_records_one_at_a_time() {
    let region = [
        0x03u8, 0x00, 0x02, 0x00, 0x41, 0x42, 0x00, 0x00, //
        0x00, 0x00, 0x00, 0x00, 0xff, 0xff,
    ];
    let mut cursor = OptionCursor::new(&region, ByteOrder::Little);
    let first = cursor.next().unwrap().unwrap();
    assert_eq!(3, first.code);
    assert_eq!(b"AB", first.value);
    let second = cursor.next().unwrap().unwrap();
    assert_eq!(0, second.code);
    assert!(second.value.is_empty());
    // The terminator stops iteration before the trailing garbage.
    assert_eq!(Ok(None), cursor.next());
    assert_eq!(Ok(None), cursor.next());
}

#[test]
fn cursor_reports_error_without_moving() {
    let region = [0x05u8, 0x00, 0x09, 0x00, 1, 2, 3, 4];
    let mut cursor = OptionCursor::new(&region, ByteOrder::Little);
    assert_eq!(Err(ErrorKind::InvalidLength), cursor.next());
    assert_eq!(Err(ErrorKind::InvalidLength), cursor.next());
}

#[test]
fn cursor_matches_collected_sequence() {
    let region = [
        0x05u8, 0x00, 0x03, 0x00, b'a', b'b', b'c', 0x00, //
        0x06, 0x00, 0x04, 0x00, 1, 2, 3, 4,
    ];
    let collected = collect_options(&region, ByteOrder::Little).unwrap();
    let mut cursor = OptionCursor::new(&region, ByteOrder::Little);
    let mut streamed = Vec::new();
    while let Some(rec) = cursor.next().unwrap() {
        streamed.push(rec);
    }
    assert_eq!(collected, streamed);
}

#[test]
fn restarting_reproduces_the_same_sequence() {
    let region = [
        0x03u8, 0x00, 0x02, 0x00, 0x41, 0x42, 0x00, 0x00, //
        0x00, 0x00, 0x00, 0x00,
    ];
    let first = collect_options(&region, ByteOrder::Little).unwrap();
    let second = collect_options(&region, ByteOrder::Little).unwrap();
    assert_eq!(first.len(), second.len());
    for (a, b) in first.iter().zip(second.iter()) {
        assert_eq!(a.code, b.code);
        assert_eq!(a.value, b.value);
    }
}
