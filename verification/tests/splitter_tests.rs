use hevc_parser::nal::NALUnit;
use hevc_parser::{nal_payload, HevcParser, NALUStartCode, MAX_PARSE_SIZE};

#[test]
fn offsets_follow_each_start_code() {
    // a three-byte code, one payload byte, then a four-byte code
    let chunk: Vec<u8> = vec![0, 0, 1, 0xAA, 0, 0, 0, 1, 0xBB];
    let mut parser = HevcParser::default();
    let mut offsets: Vec<usize> = Vec::new();
    parser.get_offsets(&chunk, &mut offsets);
    assert_eq!(offsets, vec![3, 8]);
}

#[test]
fn split_trims_the_zero_of_a_four_byte_code() {
    let chunk: Vec<u8> = vec![0, 0, 1, 0xAA, 0, 0, 0, 1, 0xBB];
    let mut parser = HevcParser::default();
    let mut offsets: Vec<usize> = Vec::new();
    parser.get_offsets(&chunk, &mut offsets);
    let last = *offsets.last().unwrap();
    let nals = parser.split_nals(&chunk, &offsets, last, false).unwrap();
    assert_eq!(nals.len(), 2);
    // the first NAL is exactly the byte 0xAA: the trailing zero belongs
    // to the next start code
    assert_eq!(nals[0].start, 3);
    assert_eq!(nals[0].end, 4);
    assert_eq!(nals[0].nal_type, 0xAA >> 1);
    assert!(matches!(nals[0].start_code, NALUStartCode::Length3));
    assert_eq!(nals[1].start, 8);
    assert_eq!(nals[1].end, 9);
    assert!(matches!(nals[1].start_code, NALUStartCode::Length4));
}

#[test]
fn payload_is_capped_at_the_parse_size() {
    // a NAL three times larger than the cap: exactly MAX_PARSE_SIZE bytes
    // of payload are unescaped
    let mut data: Vec<u8> = vec![0, 0, 1];
    for i in 0..3 * MAX_PARSE_SIZE {
        data.push(((i % 200) + 10) as u8);
    }
    let payload = nal_payload(&data, 3, 3 * MAX_PARSE_SIZE);
    assert_eq!(payload.len(), MAX_PARSE_SIZE);
    assert_eq!(&payload[..], &data[3..3 + MAX_PARSE_SIZE]);
}

#[test]
fn small_payload_is_taken_whole() {
    let data: Vec<u8> = vec![0, 0, 1, 9, 8, 7];
    let payload = nal_payload(&data, 3, 3);
    assert_eq!(payload, vec![9, 8, 7]);
}

#[test]
fn length_prefixed_walk_skips_empty_and_stops_at_overrun() {
    let mut parser = HevcParser::default();
    // two-byte lengths: one empty entry, one 2-byte NAL, one overrunning
    let data: Vec<u8> = vec![0, 0, 0, 2, 0x02, 0x01, 0, 9, 0xAA];
    let nals = parser.parse_length_prefixed(&data, 2, false).unwrap();
    assert_eq!(nals.len(), 1);
    assert_eq!(nals[0].start, 4);
    assert_eq!(nals[0].end, 6);
    assert_eq!(nals[0].nal_type, 1);
    assert!(matches!(nals[0].start_code, NALUStartCode::Length4));
}

#[test]
fn nal_helpers_classify_types() {
    let mut nal = NALUnit::empty();
    nal.nal_type = 19;
    assert!(nal.is_slice());
    nal.nal_type = 39;
    assert!(!nal.is_slice());
}
