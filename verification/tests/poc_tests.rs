use hevc_parser::nal::NALUnit;
use hevc_parser::slice::{checked_compute_poc, compute_poc, is_idr_nal, is_irap_nal};
use hevc_parser::sps::SPSNAL;

fn sps_log2(log2: u64) -> SPSNAL {
    let mut sps = SPSNAL::empty();
    sps.log2_max_poc_lsb = log2;
    sps.log2_min_cb_size = 3;
    sps.log2_ctb_size = 3;
    sps.log2_min_tb_size = 2;
    sps.log2_min_pu_size = 2;
    sps
}

fn nal_of_type(t: u8) -> NALUnit {
    let mut nal = NALUnit::empty();
    nal.nal_type = t;
    nal
}

#[test]
fn poc_wraps_up_across_the_period() {
    let sps = sps_log2(4);
    let nal = nal_of_type(1);
    // poc_tid0 = 30: prev_msb 16, prev_lsb 14; lsb 1 crosses half the period
    assert_eq!(compute_poc(&sps, 30, 1, &nal), 33);
}

#[test]
fn poc_stays_in_period_without_wrap() {
    let sps = sps_log2(4);
    let nal = nal_of_type(1);
    assert_eq!(compute_poc(&sps, 30, 13, &nal), 29);
}

#[test]
fn poc_is_zero_for_broken_link_access() {
    let sps = sps_log2(4);
    let nal = nal_of_type(16);
    assert_eq!(compute_poc(&sps, 30, 5, &nal), 5);
    let nal = nal_of_type(18);
    assert_eq!(compute_poc(&sps, 30, 5, &nal), 5);
}

#[test]
fn poc_underflow_is_detected() {
    let sps = sps_log2(4);
    // anchor 0: wrapping down would go below zero
    assert_eq!(checked_compute_poc(&sps, 0, 15, 1), None);
}

#[test]
fn irap_and_idr_ranges() {
    assert!(is_irap_nal(&nal_of_type(16)));
    assert!(is_irap_nal(&nal_of_type(23)));
    assert!(!is_irap_nal(&nal_of_type(15)));
    assert!(!is_irap_nal(&nal_of_type(24)));
    assert!(is_idr_nal(&nal_of_type(19)));
    assert!(is_idr_nal(&nal_of_type(20)));
    assert!(!is_idr_nal(&nal_of_type(21)));
    assert!(NALUnit::is_type_slice(0));
    assert!(NALUnit::is_type_slice(9));
    assert!(!NALUnit::is_type_slice(10));
    assert!(!NALUnit::is_type_slice(15));
    assert!(NALUnit::is_type_slice(21));
    assert!(NALUnit::is_type_slice(22));
    assert!(NALUnit::is_type_slice(23));
    assert!(!NALUnit::is_type_slice(32));
}
