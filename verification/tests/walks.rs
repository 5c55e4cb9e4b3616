use rtmp_ingest::amf::{nests_too_deep, walk_value, Walk, NESTING_LIMIT};
use rtmp_ingest::avc::is_configuration_at_risk;
use rtmp_ingest::golomb::{read_extension, Reading};

fn walk(bytes: &[u8], room: usize) -> Walk {
    walk_value(bytes, bytes.len(), 0, None, room)
}

fn end(at: usize) -> Walk {
    Walk::End { at, pending: None }
}

#[test]
fn plain_values_end_after_their_bytes() {
    assert_eq!(walk(&[0x00, 1, 2, 3, 4, 5, 6, 7, 8, 0xff], 0), end(9));
    assert_eq!(walk(&[0x00, 1, 2, 3, 4, 5, 6, 7], 0), Walk::Cut);
    assert_eq!(walk(&[0x01, 0x01], 0), end(2));
    assert_eq!(walk(&[0x01], 0), Walk::Cut);
    assert_eq!(walk(&[0x02, 0x00, 0x03, b'a', b'b', b'c'], 0), end(6));
    assert_eq!(walk(&[0x02, 0x00, 0x03, b'a', b'b'], 0), Walk::Cut);
    assert_eq!(walk(&[0x05], 0), end(1));
    assert_eq!(walk(&[0x06, 0x06], 0), end(1));
    assert_eq!(walk(&[0x0b, 1, 2, 3, 4, 5, 6, 7, 8, 0, 0], 0), end(11));
    assert_eq!(walk(&[0x0c, 0, 0, 0, 2, b'a', b'b'], 0), end(7));
    assert_eq!(walk(&[0x0f, 0, 0, 0, 3, b'a', b'b'], 0), Walk::Cut);
    assert_eq!(walk(&[0x0c, 0xff, 0xff, 0xff, 0xff, b'a'], 0), Walk::Cut);
    assert_eq!(walk(&[], 0), Walk::Cut);
}

#[test]
fn markers_that_start_no_value_cut_the_walk() {
    for marker in [0x04u8, 0x07, 0x09, 0x0d, 0x0e, 0x11, 0x12, 0xff] {
        assert_eq!(walk(&[marker, 0, 0, 0, 0, 0, 0, 0, 0, 0], 5), Walk::Cut);
    }
}

#[test]
fn containers_take_room() {
    let empty_object = [0x03, 0x00, 0x00, 0x09];
    assert_eq!(walk(&empty_object, 1), end(4));
    assert_eq!(walk(&empty_object, 0), Walk::TooDeep);
    let typed = [0x10, 0x00, 0x01, b'T', 0x00, 0x01, b'a', 0x05, 0x00, 0x00, 0x09];
    assert_eq!(walk(&typed, 1), end(11));
    assert_eq!(walk(&typed, 0), Walk::TooDeep);
    let array = [0x0a, 0, 0, 0, 2, 0x05, 0x01, 0x00];
    assert_eq!(walk(&array, 1), end(8));
    assert_eq!(walk(&array, 0), Walk::TooDeep);
    assert_eq!(walk(&[0x0a, 0, 0, 0, 3, 0x05, 0x01, 0x00], 1), Walk::Cut);
    let keyed = [0x08, 0, 0, 0, 1, 0x00, 0x01, b'a', 0x05, 0x00, 0x00, 0x09];
    // The end marker is looked for right after the last member.
    assert_eq!(walk(&keyed, 1), Walk::End { at: 10, pending: Some(0) });
    let closed = [0x08, 0, 0, 0, 1, 0x00, 0x01, b'a', 0x05, 0x09];
    assert_eq!(walk(&closed, 1), end(10));
    let open = [0x08, 0, 0, 0, 1, 0x00, 0x01, b'a', 0x05];
    assert_eq!(walk(&open, 1), end(9));
    // An object in an array in an object.
    let nested = [
        0x03, 0x00, 0x01, b'a', 0x0a, 0, 0, 0, 1, 0x03, 0x00, 0x00, 0x09, 0x00, 0x00, 0x09,
    ];
    assert_eq!(walk(&nested, 3), end(16));
    assert_eq!(walk(&nested, 2), Walk::TooDeep);
}

#[test]
fn a_value_may_start_with_a_marker_held() {
    let bytes = [0x00, 0x01, b'a', 0x05, 0x00, 0x00, 0x09];
    assert_eq!(walk_value(&bytes, bytes.len(), 0, Some(0x03), 1), end(7));
    assert_eq!(walk_value(&bytes, bytes.len(), 0, Some(0x05), 1), end(0));
    assert_eq!(walk_value(&bytes, 3, 3, Some(0x01), 1), Walk::Cut);
}

#[test]
fn entries_are_walked_one_after_the_other() {
    assert_eq!(NESTING_LIMIT, 64);
    assert!(!nests_too_deep(&[], 0, 0));
    let mut entries = vec![0x02, 0x00, 0x01, b'a', 0x05, 0x0c, 0, 0, 0, 1, b'b'];
    let first = entries.len();
    for _ in 0..65 {
        entries.extend_from_slice(&[0x0a, 0, 0, 0, 1]);
    }
    assert!(nests_too_deep(&entries, 0, entries.len()));
    // Up to the limit the walk goes on, and ends where the bytes end.
    assert!(!nests_too_deep(&entries, 0, first + 5 * 64));
    // Nothing is walked before `from`, and nothing after an entry that is none.
    assert!(!nests_too_deep(&entries, 4, entries.len()));
    assert!(nests_too_deep(&entries, 5, entries.len()));
    assert!(!nests_too_deep(&entries, 0, first));
}

/// Packs a run of bits, high bit first, into bytes, with zero bits to fill
/// the last byte.
fn bits(pattern: &str) -> Vec<u8> {
    let mut bytes = Vec::new();
    let mut count = 0;
    for c in pattern.chars().filter(|c| *c == '0' || *c == '1') {
        if count % 8 == 0 {
            bytes.push(0u8);
        }
        if c == '1' {
            *bytes.last_mut().unwrap() |= 0x80 >> (count % 8);
        }
        count += 1;
    }
    bytes
}

fn reading(pattern: &str) -> Reading {
    let data = bits(pattern);
    read_extension(&data, 0, data.len())
}

/// The head of an extension whose scaling lists follow: three codes of
/// zero, a clear bit and a set one.
const LISTS: &str = "111 0 1 ";

#[test]
fn bits_are_packed_high_bit_first() {
    assert_eq!(bits(""), Vec::<u8>::new());
    assert_eq!(bits("1"), vec![0x80]);
    assert_eq!(bits("0000 0001 1"), vec![0x01, 0x80]);
}

#[test]
fn an_extension_without_scaling_lists_ends_after_its_flags() {
    assert_eq!(reading("1 1 1 0 0"), Reading::Passed);
    // Codes of more than one bit: 3 with one bit more, then 6 and 5.
    assert_eq!(reading("00100 1 00111 00110 1 0"), Reading::Passed);
    // Zero bytes after the end of what is read.
    assert_eq!(read_extension(&[0xe0, 0, 0, 0, 0, 0, 0, 0, 0, 0, 0], 0, 11), Reading::Passed);
}

#[test]
fn an_extension_that_the_decoder_cannot_read_fails() {
    assert_eq!(reading(""), Reading::Failed);
    assert_eq!(reading("0000 0000"), Reading::Failed);
    // A chroma format of 4, a luma depth of 7, a chroma depth of 7.
    assert_eq!(reading("00101 1 1 0 0"), Reading::Failed);
    assert_eq!(reading("1 0001000 1 0 0"), Reading::Failed);
    assert_eq!(reading("1 1 0001000 0 0"), Reading::Failed);
    // The bits end before the flags, and within a code.
    assert_eq!(read_extension(&[0xe0], 0, 0), Reading::Failed);
    assert_eq!(reading("1 1 1"), Reading::Passed);
    assert_eq!(read_extension(&bits("1111 1111"), 0, 1), Reading::Failed);
    assert_eq!(reading("1 1 001"), Reading::Failed);
    // Ranges that the payload does not hold.
    assert_eq!(read_extension(&[0xe0], 0, 2), Reading::Failed);
    assert_eq!(read_extension(&[0xe0], 1, 0), Reading::Failed);
    let long = vec![0xe0; 0x1_0000];
    assert_eq!(read_extension(&long, 0, 0x1_0000), Reading::Failed);
    assert_eq!(read_extension(&long, 0, 0xffff), Reading::Passed);
}

#[test]
fn scaling_lists_are_read_up_to_their_end() {
    // Eight lists, none of them there.
    assert_eq!(reading(&format!("{LISTS} 0000 0000")), Reading::Passed);
    assert_eq!(reading(&format!("{LISTS} 000")), Reading::Failed);
    // Twelve for the chroma format 3.
    assert_eq!(reading("00100 0 1 1 0 1 0000 0000 0000"), Reading::Passed);
    assert_eq!(reading("00100 0 1 1 0 1 0000 00"), Reading::Failed);
    // The first list there: sixteen codes of zero.
    let zeros = "1".repeat(16);
    assert_eq!(reading(&format!("{LISTS} 1 {zeros} 0000 000")), Reading::Passed);
    assert_eq!(reading(&format!("{LISTS} 1 {} 0000 000", "1".repeat(15))), Reading::Failed);
    // The list ends where the running value comes to zero: 8 - 8.
    assert_eq!(reading(&format!("{LISTS} 1 000010001 0000 000")), Reading::Passed);
    // The seventh list has 64 codes.
    assert_eq!(reading(&format!("{LISTS} 0000 00 1 {} 0", "1".repeat(64))), Reading::Passed);
    assert_eq!(reading(&format!("{LISTS} 0000 00 1 {} 0", "1".repeat(63))), Reading::Failed);
}

#[test]
fn a_code_of_64_zero_bits_after_64_leading_ones_overflows() {
    let zeros = "0".repeat(64);
    // In the chroma format, in a depth, and in a scaling list.
    assert_eq!(reading(&format!("{zeros} 1 {zeros}")), Reading::Overflow);
    assert_eq!(reading(&format!("1 1 {zeros} 1 {zeros}")), Reading::Overflow);
    assert_eq!(reading(&format!("{LISTS} 1 {zeros} 1 {zeros}")), Reading::Overflow);
    // Not where one of the last 64 bits is set: the value is out of range.
    assert_eq!(reading(&format!("{zeros} 1 {} 1", "0".repeat(63))), Reading::Failed);
    // Not where the bits end first.
    assert_eq!(reading(&format!("{zeros} 1 {}", "0".repeat(56))), Reading::Failed);
    // More leading zero bits, all of the last 64 clear.
    assert_eq!(reading(&format!("{} 1 {}", "0".repeat(70), "0".repeat(70))), Reading::Overflow);
    assert_eq!(
        reading(&format!("{} 1 1 {}", "0".repeat(70), "0".repeat(69))),
        Reading::Overflow
    );
    assert_eq!(
        reading(&format!("{} 1 {} 1 {}", "0".repeat(70), "0".repeat(10), "0".repeat(59))),
        Reading::Failed
    );
}

#[test]
fn a_sum_in_a_scaling_list_overflows_on_a_far_code() {
    let zeros = "0".repeat(63);
    // The code 2^64 - 3 stands for 2^63 - 1: with the running 8 it is too much.
    let far = format!("{zeros} 1 {} 0", "1".repeat(62));
    assert_eq!(reading(&format!("{LISTS} 1 {far}")), Reading::Overflow);
    // The code 2^64 - 2 stands for -(2^63 - 1): the sum with 8 and 256 fits
    // and leaves -247, which a code for -9 brings to zero.
    let low = format!("{zeros} 1 {}", "1".repeat(63));
    assert_eq!(reading(&format!("{LISTS} 1 {low} 000010011 0000 000")), Reading::Passed);
    // The same code again, with the running value of -247, is too little.
    assert_eq!(reading(&format!("{LISTS} 1 {low} {low}")), Reading::Overflow);
    // A code of 62 leading zero bits is never too far.
    let near = format!("{} 1 {}", "0".repeat(62), "1".repeat(62));
    assert_eq!(reading(&format!("{LISTS} 1 {near} 000010011 0000 000")), Reading::Passed);
    assert_eq!(reading(&format!("{LISTS} 1 {near} {near} {near} 1 1")), Reading::Failed);
}

#[test]
fn configurations_are_at_risk_only_where_an_extension_overflows() {
    let zeros = [0u8; 64];
    // Too short, and without bytes after the picture parameter sets.
    assert!(!is_configuration_at_risk(&zeros, 5, 0));
    assert!(!is_configuration_at_risk(&zeros, 7, 0));
    // No extension: the count is zero.
    assert!(!is_configuration_at_risk(&zeros, 64, 0));
    let overflow = bits(&format!("{} 1 {}", "0".repeat(64), "0".repeat(64)));
    assert_eq!(overflow.len(), 17);
    let mut record = vec![0x01, 0x64, 0x00, 0x1e, 0xff, 0xe1, 0x00, 0x11];
    record.extend_from_slice(&overflow);
    record.extend_from_slice(&[0x01, 0x00, 0x11]);
    record.extend_from_slice(&overflow);
    let sets = record.len();
    // The same bytes in the parameter sets alone.
    assert!(!is_configuration_at_risk(&record, sets, 0));
    // Behind an extension that the decoder reads.
    record.extend_from_slice(&[0x00, 0x00, 0x00, 0x02, 0x00, 0x02, 0xe0, 0x00, 0x00, 0x11]);
    record.extend_from_slice(&overflow);
    assert!(is_configuration_at_risk(&record, record.len(), 0));
    // Not where that extension is not whole.
    assert!(!is_configuration_at_risk(&record, record.len() - 1, 0));
    // Not behind an extension that the decoder cannot read.
    let mut failed = record.clone();
    failed[sets + 6] = 0x00;
    assert!(!is_configuration_at_risk(&failed, failed.len(), 0));
    // Not behind the number of extensions that the configuration gives.
    let mut fewer = record.clone();
    fewer[sets + 3] = 0x01;
    assert!(!is_configuration_at_risk(&fewer, fewer.len(), 0));
    // Not under a profile without extensions.
    for profile in [66u8, 77, 88] {
        record[1] = profile;
        assert!(!is_configuration_at_risk(&record, record.len(), 0));
    }
}

#[test]
fn ranges_outside_the_payload_hold_nothing() {
    let bytes = [0x03, 0x00, 0x00, 0x09];
    assert_eq!(walk_value(&bytes, 5, 0, None, 1), Walk::Cut);
    assert_eq!(walk_value(&bytes, 3, 4, None, 1), Walk::Cut);
    assert_eq!(walk_value(&bytes, 4, 4, None, 1), Walk::Cut);
    assert!(!nests_too_deep(&bytes, 0, 5));
    assert!(!nests_too_deep(&bytes, 3, 2));
    let mut record = vec![0x01, 0x64, 0x00, 0x1e, 0xff, 0xe0, 0x00];
    record.extend_from_slice(&[0x00, 0x00, 0x00, 0x01, 0x00, 0x11]);
    record.extend_from_slice(&[0, 0, 0, 0, 0, 0, 0, 0, 0x80, 0, 0, 0, 0, 0, 0, 0, 0]);
    assert!(is_configuration_at_risk(&record, record.len(), 0));
    assert!(!is_configuration_at_risk(&record, record.len() + 1, 0));
    assert!(!is_configuration_at_risk(&record, 3, 4));
}
