use hevc_parser::bitreader::BitReader;
use hevc_parser::context::Context;
use hevc_parser::errors::HevcError;
use hevc_parser::nal::NALUnit;
use hevc_parser::pps::PPSNAL;
use hevc_parser::slice::SliceNAL;
use hevc_parser::sps::SPSNAL;
use hevc_parser::vps::VPSNAL;
use hevc_parser::HevcParser;

// a minimal single-layer video parameter set
const VPS_RBSP: &[u8] = &[12, 1, 255, 255, 1, 96, 0, 0, 0, 144, 0, 0, 0, 0, 0, 93, 145, 192, 144];

// a 64x64 sequence parameter set with a four-bit picture-order window
const SPS_RBSP: &[u8] = &[1, 1, 96, 0, 0, 0, 144, 0, 0, 0, 0, 0, 93, 160, 32, 129, 5, 228, 121, 47, 43, 32];

// a minimal picture parameter set, id zero over sps zero
const PPS_RBSP: &[u8] = &[192, 113, 129, 18];

#[test]
fn vps_parses_and_checks_reserved_bits() {
    let mut bs = BitReader::new(VPS_RBSP.to_vec());
    let vps = VPSNAL::parse(&mut bs).unwrap();
    assert_eq!(vps.vps_id, 0);
    assert_eq!(vps.vps_max_layers, 1);
    assert_eq!(vps.vps_max_sub_layers, 1);
    assert_eq!(vps.vps_max_dec_pic_buffering, vec![4]);
    assert_eq!(vps.vps_num_reorder_pics, vec![2]);
    assert_eq!(vps.vps_max_latency_increase, vec![0]);
    assert_eq!(vps.vps_num_layer_sets, 1);
    // break the reserved two bits
    let mut broken = VPS_RBSP.to_vec();
    broken[0] = 0x00; // vps_id 0, reserved bits 00
    let mut bs = BitReader::new(broken);
    assert_eq!(VPSNAL::parse(&mut bs).err().unwrap(), HevcError::ReservedBitsViolation);
}

#[test]
fn sps_parses_with_derived_values() {
    let mut bs = BitReader::new(SPS_RBSP.to_vec());
    let sps = SPSNAL::parse(&mut bs).unwrap();
    assert_eq!(sps.sps_id, 0);
    assert_eq!(sps.width, 64);
    assert_eq!(sps.height, 64);
    assert_eq!(sps.bit_depth, 8);
    assert_eq!(sps.log2_max_poc_lsb, 4);
    assert_eq!(sps.log2_min_cb_size, 3);
    assert_eq!(sps.log2_ctb_size, 6);
    assert_eq!(sps.log2_min_tb_size, 2);
    assert_eq!(sps.log2_min_pu_size, 2);
    assert_eq!(sps.ctb_width, 1);
    assert_eq!(sps.ctb_height, 1);
    assert_eq!(sps.ctb_size, 1);
    assert_eq!(sps.min_cb_width, 8);
    assert_eq!(sps.min_cb_height, 8);
    assert_eq!(sps.min_tb_width, 16);
    assert_eq!(sps.min_tb_height, 16);
    assert_eq!(sps.min_pu_width, 16);
    assert_eq!(sps.min_pu_height, 16);
    assert_eq!(sps.tb_mask, 15);
}

#[test]
fn pps_parses_minimal_fields() {
    let mut bs = BitReader::new(PPS_RBSP.to_vec());
    let pps = PPSNAL::parse(&mut bs).unwrap();
    assert_eq!(pps.pps_id, 0);
    assert_eq!(pps.sps_id, 0);
    assert_eq!(pps.num_ref_idx_l0_default_active, 1);
    assert_eq!(pps.num_ref_idx_l1_default_active, 1);
    assert_eq!(pps.pic_init_qp_minus26, 0);
    assert_eq!(pps.log2_parallel_merge_level, 2);
    assert!(!pps.tiles_enabled_flag);
}

#[test]
fn slice_header_resolves_parameter_sets_and_poc() {
    let mut ctx = Context::new();
    let mut bs = BitReader::new(SPS_RBSP.to_vec());
    ctx.put_seq_param_set(SPSNAL::parse(&mut bs).unwrap());
    let mut bs = BitReader::new(PPS_RBSP.to_vec());
    ctx.put_pic_param_set(PPSNAL::parse(&mut bs).unwrap());
    let mut nal = NALUnit::empty();
    nal.nal_type = 1; // trailing picture
    // first_slice 1, pps_id ue(0), slice_type ue(1), poc lsb 0101, stop
    let mut bs = BitReader::new(vec![0xD2, 0xC0]);
    let mut poc_tid0: u64 = 0;
    let mut poc: u64 = 0;
    let slice = SliceNAL::parse(&mut bs, &ctx, &nal, &mut poc_tid0, &mut poc).unwrap();
    assert!(slice.first_slice_in_pic_flag);
    assert_eq!(slice.pps_id, 0);
    assert_eq!(slice.slice_type, 1);
    assert_eq!(slice.pic_order_cnt_lsb, 5);
    assert_eq!(slice.output_picture_number, 5);
    assert_eq!(poc, 5);
    assert_eq!(poc_tid0, 5);
}

#[test]
fn slice_header_without_pps_is_rejected() {
    let ctx = Context::new();
    let mut nal = NALUnit::empty();
    nal.nal_type = 1;
    let mut bs = BitReader::new(vec![0xD2, 0xC0]);
    let mut poc_tid0: u64 = 0;
    let mut poc: u64 = 0;
    let r = SliceNAL::parse(&mut bs, &ctx, &nal, &mut poc_tid0, &mut poc);
    assert_eq!(r.err().unwrap(), HevcError::InvalidPpsId);
    let _ = nal;
}

#[test]
fn slice_header_without_sps_is_rejected() {
    let mut ctx = Context::new();
    let mut pps = PPSNAL::empty();
    pps.pps_id = 0;
    pps.sps_id = 0;
    ctx.put_pic_param_set(pps);
    let mut nal = NALUnit::empty();
    nal.nal_type = 1;
    let mut bs = BitReader::new(vec![0xD2, 0xC0]);
    let mut poc_tid0: u64 = 0;
    let mut poc: u64 = 0;
    let r = SliceNAL::parse(&mut bs, &ctx, &nal, &mut poc_tid0, &mut poc);
    assert_eq!(r.err().unwrap(), HevcError::InvalidSpsId);
}

#[test]
fn annex_b_stream_parses_end_to_end() {
    // VPS, SPS, PPS and two trailing slices with picture orders 1 and 5
    let mut chunk: Vec<u8> = Vec::new();
    let nal_units: Vec<Vec<u8>> = vec![
        // escaped NAL units with their two-byte headers
        vec![64, 1, 12, 1, 255, 255, 1, 96, 0, 0, 3, 0, 144, 0, 0, 3, 0, 0, 3, 0, 93, 145, 192, 144],
        vec![66, 1, 1, 1, 96, 0, 0, 3, 0, 144, 0, 0, 3, 0, 0, 3, 0, 93, 160, 32, 129, 5, 228, 121, 47, 43, 32],
        vec![68, 1, 192, 113, 129, 18],
        vec![2, 1, 208, 192],
        vec![2, 1, 210, 192],
    ];
    for nal in &nal_units {
        chunk.extend_from_slice(&[0, 0, 1]);
        chunk.extend_from_slice(nal);
    }
    let mut parser = HevcParser::default();
    let mut offsets: Vec<usize> = Vec::new();
    parser.get_offsets(&chunk, &mut offsets);
    assert_eq!(offsets.len(), 5);
    let last = *offsets.last().unwrap();
    let nals = parser.split_nals(&chunk, &offsets, last, true).unwrap();
    assert_eq!(nals.len(), 5);
    assert_eq!(nals[0].nal_type, 32);
    assert_eq!(nals[1].nal_type, 33);
    assert_eq!(nals[2].nal_type, 34);
    assert_eq!(nals[3].nal_type, 1);
    assert_eq!(nals[4].nal_type, 1);
    parser.finish();
    let ordered = parser.ordered_frames();
    assert_eq!(ordered.len(), 2);
    assert_eq!(ordered[0].presentation_number, 0);
    assert_eq!(ordered[1].presentation_number, 1);
    assert_eq!(ordered[0].first_slice.output_picture_number, 1);
    assert_eq!(ordered[1].first_slice.output_picture_number, 5);
    assert_eq!(parser.get_nals().len(), 5);
}

#[test]
fn forbidden_zero_bit_fails_the_nal() {
    // header with the top bit set
    let chunk: Vec<u8> = vec![0, 0, 1, 0x80, 0x01, 0x00];
    let mut parser = HevcParser::default();
    let mut offsets: Vec<usize> = Vec::new();
    parser.get_offsets(&chunk, &mut offsets);
    let last = *offsets.last().unwrap();
    let r = parser.split_nals(&chunk, &offsets, last, true);
    assert_eq!(r.err().unwrap(), HevcError::ForbiddenZeroBit);
}
