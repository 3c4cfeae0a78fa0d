use hevc_parser::emit::{aud_for_frame, start_code_for_nal, StartCodePreset};
use hevc_parser::nal::Frame;
use hevc_parser::NALUStartCode;

fn frame_of_type(t: u64) -> Frame {
    let mut f = Frame::empty();
    f.frame_type = t;
    f
}

#[test]
fn aud_for_intra_frame_is_exact() {
    let aud = aud_for_frame(&frame_of_type(2), None);
    assert_eq!(aud, vec![0x46, 0x01, 0x10]);
    let aud = aud_for_frame(&frame_of_type(2), Some(NALUStartCode::Length4));
    assert_eq!(aud, vec![0, 0, 0, 1, 0x46, 0x01, 0x10]);
}

#[test]
fn aud_pic_types_follow_frame_types() {
    assert_eq!(aud_for_frame(&frame_of_type(1), None)[2], 0x30);
    assert_eq!(aud_for_frame(&frame_of_type(0), None)[2], 0x50);
    assert_eq!(aud_for_frame(&frame_of_type(9), None)[2], 0xF0);
}

#[test]
fn start_code_policy() {
    assert_eq!(start_code_for_nal(StartCodePreset::Four, 1, false), NALUStartCode::Length4);
    assert_eq!(start_code_for_nal(StartCodePreset::AnnexB, 32, false), NALUStartCode::Length4);
    assert_eq!(start_code_for_nal(StartCodePreset::AnnexB, 35, false), NALUStartCode::Length4);
    assert_eq!(start_code_for_nal(StartCodePreset::AnnexB, 1, true), NALUStartCode::Length4);
    assert_eq!(start_code_for_nal(StartCodePreset::AnnexB, 1, false), NALUStartCode::Length3);
}

#[test]
fn start_code_slices_and_sizes() {
    assert_eq!(NALUStartCode::Length3.slice(), &[0, 0, 1]);
    assert_eq!(NALUStartCode::Length4.slice(), &[0, 0, 0, 1]);
    assert_eq!(NALUStartCode::Length3.size(), 3);
    assert_eq!(NALUStartCode::Length4.size(), 4);
}
