use hevc_parser::bitreader::BitReader;
use hevc_parser::config::HEVCDecoderConfigurationRecord;
use hevc_parser::errors::HevcError;
use hevc_parser::hvcc::{HevcDecoderConfigurationRecord, HvccError, ParamSetError};

fn fixed_23(version: u8) -> Vec<u8> {
    let mut data = vec![0u8; 23];
    data[0] = version;
    data[21] = 0x03; // length_size_minus_one = 3
    data[12] = 93; // general_level_idc
    data
}

#[test]
fn record_shorter_than_floor_is_rejected() {
    let r = HevcDecoderConfigurationRecord::try_from(vec![1u8; 22]);
    assert_eq!(r.err().unwrap(), HvccError::NotEnoughData { expected: 23, actual: 22 });
}

#[test]
fn version_other_than_one_is_rejected() {
    let r = HevcDecoderConfigurationRecord::try_from(fixed_23(2));
    assert_eq!(r.err().unwrap(), HvccError::UnsupportedConfigurationVersion(2));
}

#[test]
fn accessors_read_their_bytes() {
    let mut data = fixed_23(1);
    data[1] = 0b1110_0001; // profile idc in the low five bits
    data[2] = 0x01;
    data[22] = 0;
    let rec = HevcDecoderConfigurationRecord::try_from(data).unwrap();
    assert_eq!(rec.configuration_version(), 1);
    assert_eq!(rec.general_profile_idc(), 1);
    assert_eq!(rec.general_profile_compatibility_flags(), 0x0100_0000);
    assert_eq!(rec.general_level_idc(), 93);
    assert_eq!(rec.length_size_minus_one(), 3);
    assert_eq!(rec.num_of_arrays(), 0);
    assert!(rec.parameter_sets(32).unwrap().is_empty());
}

#[test]
fn parameter_sets_walks_matching_array() {
    let mut data = fixed_23(1);
    data[22] = 1; // one array
    // array header: nal_type 32, one element
    data.extend_from_slice(&[32, 0, 1]);
    // element: length 4, header 0x40 0x01 (type 32), two payload bytes
    data.extend_from_slice(&[0, 4, 0x40, 0x01, 0xAA, 0xBB]);
    let rec = HevcDecoderConfigurationRecord::try_from(data).unwrap();
    let sets = rec.parameter_sets(32).unwrap();
    assert_eq!(sets.len(), 1);
    assert_eq!(sets[0], vec![0x40, 0x01, 0xAA, 0xBB]);
    // an array of another type yields nothing
    assert!(rec.parameter_sets(33).unwrap().is_empty());
}

#[test]
fn mismatched_element_type_is_reported() {
    let mut data = fixed_23(1);
    data[22] = 1;
    data.extend_from_slice(&[32, 0, 1]);
    // element header announces type 33 instead
    data.extend_from_slice(&[0, 4, 0x42, 0x01, 0xAA, 0xBB]);
    let rec = HevcDecoderConfigurationRecord::try_from(data).unwrap();
    let r = rec.parameter_sets(32);
    assert_eq!(
        r.err().unwrap(),
        HvccError::ParamSet(ParamSetError::IncorrectNalType { expected: 32, actual: 33 })
    );
}

#[test]
fn forbidden_bit_in_element_is_reported() {
    let mut data = fixed_23(1);
    data[22] = 1;
    data.extend_from_slice(&[32, 0, 1]);
    data.extend_from_slice(&[0, 4, 0xC0, 0x01, 0xAA, 0xBB]);
    let rec = HevcDecoderConfigurationRecord::try_from(data).unwrap();
    let r = rec.parameter_sets(32);
    assert_eq!(r.err().unwrap(), HvccError::ParamSet(ParamSetError::ForbiddenZeroBit));
}

#[test]
fn truncated_interior_length_is_reported() {
    let mut data = fixed_23(1);
    data[22] = 1;
    data.extend_from_slice(&[32, 0, 1]);
    data.extend_from_slice(&[0, 9, 0x40, 0x01]); // length 9 overruns
    let rec = HevcDecoderConfigurationRecord::try_from(data).unwrap();
    assert!(matches!(
        rec.parameter_sets(32),
        Err(HvccError::ParamSet(ParamSetError::NotEnoughData { .. }))
    ));
}

#[test]
fn bit_level_record_needs_its_fixed_prefix() {
    let mut bs = BitReader::new(vec![0u8; 21]);
    assert_eq!(HEVCDecoderConfigurationRecord::parse(&mut bs).err().unwrap(), HevcError::BitstreamUnderrun);
    let mut data = vec![0u8; 22];
    data[0] = 1;
    data[12] = 93;
    data[21] = 0x03;
    let mut bs = BitReader::new(data);
    let rec = HEVCDecoderConfigurationRecord::parse(&mut bs).unwrap();
    assert_eq!(rec.configuration_version, 1);
    assert_eq!(rec.general_level_idc, 93);
    assert_eq!(rec.length_size_minus_one, 3);
}

#[test]
fn create_context_installs_embedded_parameter_sets() {
    let vps_nal: Vec<u8> = vec![
        64, 1, 12, 1, 255, 255, 1, 96, 0, 0, 3, 0, 144, 0, 0, 3, 0, 0, 3, 0, 93, 145, 192, 144,
    ];
    let sps_nal: Vec<u8> = vec![
        66, 1, 1, 1, 96, 0, 0, 3, 0, 144, 0, 0, 3, 0, 0, 3, 0, 93, 160, 32, 129, 5, 228, 121, 47,
        43, 32,
    ];
    let pps_nal: Vec<u8> = vec![68, 1, 192, 113, 129, 18];
    let mut data = fixed_23(1);
    data[22] = 3;
    for (t, nal) in [(32u8, &vps_nal), (33, &sps_nal), (34, &pps_nal)] {
        data.push(t);
        data.extend_from_slice(&[0, 1]);
        data.extend_from_slice(&[(nal.len() >> 8) as u8, nal.len() as u8]);
        data.extend_from_slice(nal);
    }
    let rec = HevcDecoderConfigurationRecord::try_from(data).unwrap();
    let ctx = rec.create_context().unwrap();
    let vps = ctx.vps_by_id(0).expect("vps installed");
    assert_eq!(vps.vps_max_layers, 1);
    let sps = ctx.sps_by_id(0).expect("sps installed");
    assert_eq!(sps.width, 64);
    assert_eq!(sps.height, 64);
    let pps = ctx.pps_by_id(0).expect("pps installed");
    assert_eq!(pps.sps_id, 0);
    assert_eq!(ctx.vps().len(), 1);
    assert_eq!(ctx.sps().len(), 1);
    assert_eq!(ctx.pps().len(), 1);
}
