use hevc_parser::errors::HevcError;
use hevc_parser::sei::SeiMessage;

#[test]
fn sei_envelope_is_located() {
    // prefix SEI header (type 39), payload type 4, size 2, two bytes, trailing byte
    let data: Vec<u8> = vec![0x4E, 0x01, 4, 2, 0xAA, 0xBB, 0x80];
    let msgs = SeiMessage::parse_sei_rbsp(&data).unwrap();
    assert_eq!(msgs.len(), 1);
    assert_eq!(msgs[0].payload_type, 4);
    assert_eq!(msgs[0].payload_size, 2);
    assert_eq!(msgs[0].msg_offset, 2);
    assert_eq!(msgs[0].payload_offset, 4);
}

#[test]
fn sei_type_accumulates_over_ff_bytes() {
    let data: Vec<u8> = vec![0x4E, 0x01, 0xFF, 10, 1, 0xCC, 0x80];
    let msgs = SeiMessage::parse_sei_rbsp(&data).unwrap();
    assert_eq!(msgs.len(), 1);
    assert_eq!(msgs[0].payload_type, 265);
    assert_eq!(msgs[0].payload_size, 1);
}

#[test]
fn oversized_payload_is_rejected() {
    let data: Vec<u8> = vec![0x4E, 0x01, 4, 200, 0xAA];
    assert_eq!(SeiMessage::parse_sei_rbsp(&data).err().unwrap(), HevcError::PayloadExceedsNalu);
}

#[test]
fn non_sei_nal_is_rejected() {
    let data: Vec<u8> = vec![0x02, 0x01, 4, 2, 0xAA, 0xBB];
    assert_eq!(SeiMessage::parse_sei_rbsp(&data).err().unwrap(), HevcError::UnexpectedNalType(1));
}
