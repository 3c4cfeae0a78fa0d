use hevc_parser::bitreader::BitReader;
use hevc_parser::errors::HevcError;

#[test]
fn ue_small_codes() {
    // "1" -> 0
    let mut bs = BitReader::new(vec![0x80]);
    assert_eq!(bs.get_ue().unwrap(), 0);
    // "010" -> 1
    let mut bs = BitReader::new(vec![0x40]);
    assert_eq!(bs.get_ue().unwrap(), 1);
    // "011" -> 2
    let mut bs = BitReader::new(vec![0x60]);
    assert_eq!(bs.get_ue().unwrap(), 2);
    // "00100" -> 3
    let mut bs = BitReader::new(vec![0x20]);
    assert_eq!(bs.get_ue().unwrap(), 3);
    // "0001000" -> 7
    let mut bs = BitReader::new(vec![0x10]);
    assert_eq!(bs.get_ue().unwrap(), 7);
    // "000010000" -> 15
    let mut bs = BitReader::new(vec![0x08, 0x00]);
    assert_eq!(bs.get_ue().unwrap(), 15);
}

#[test]
fn se_code_numbers() {
    // codeNum 0 -> 0
    let mut bs = BitReader::new(vec![0x80]);
    assert_eq!(bs.get_se().unwrap(), 0);
    // codeNum 1 -> 1
    let mut bs = BitReader::new(vec![0x40]);
    assert_eq!(bs.get_se().unwrap(), 1);
    // codeNum 2 -> -1
    let mut bs = BitReader::new(vec![0x60]);
    assert_eq!(bs.get_se().unwrap(), -1);
    // codeNum 3 -> 2
    let mut bs = BitReader::new(vec![0x20]);
    assert_eq!(bs.get_se().unwrap(), 2);
    // codeNum 4 -> -2 ("00101")
    let mut bs = BitReader::new(vec![0x28]);
    assert_eq!(bs.get_se().unwrap(), -2);
}

#[test]
fn fixed_width_reads() {
    let mut bs = BitReader::new(vec![0xAB, 0xCD]);
    assert_eq!(bs.get_n(4).unwrap(), 0xA);
    assert_eq!(bs.get_n(8).unwrap(), 0xBC);
    assert!(bs.get().unwrap());
    assert!(bs.get().unwrap());
    assert_eq!(bs.available(), 2);
    assert_eq!(bs.position(), 14);
}

#[test]
fn underrun_is_reported() {
    let mut bs = BitReader::new(vec![]);
    assert_eq!(bs.get(), Err(HevcError::BitstreamUnderrun));
    let mut bs = BitReader::new(vec![0xFF]);
    assert_eq!(bs.get_n(9), Err(HevcError::BitstreamUnderrun));
    let mut bs = BitReader::new(vec![0x00]);
    assert_eq!(bs.get_ue(), Err(HevcError::BitstreamUnderrun));
}

#[test]
fn oversized_exp_golomb_is_rejected() {
    // 32 zero bits and more: the run is too long for a sane code
    let mut bs = BitReader::new(vec![0, 0, 0, 0, 0x80]);
    assert_eq!(bs.get_ue(), Err(HevcError::FieldOutOfRange));
}

#[test]
fn skip_advances_and_checks() {
    let mut bs = BitReader::new(vec![0xFF, 0x00]);
    bs.skip_n(10).unwrap();
    assert_eq!(bs.position(), 10);
    assert_eq!(bs.skip_n(7), Err(HevcError::BitstreamUnderrun));
    assert_eq!(bs.position(), 10);
}
