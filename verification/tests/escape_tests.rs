use hevc_parser::escape::{
    add_start_code_emulation_prevention_3_byte, clear_start_code_emulation_prevention_3_byte,
};

#[test]
fn unescape_drops_emulation_byte() {
    let out = clear_start_code_emulation_prevention_3_byte(&[0, 0, 3, 1]);
    assert_eq!(out, vec![0, 0, 1]);
}

#[test]
fn unescape_keeps_short_buffers() {
    assert_eq!(clear_start_code_emulation_prevention_3_byte(&[0, 3]), vec![0, 3]);
    assert_eq!(clear_start_code_emulation_prevention_3_byte(&[]), Vec::<u8>::new());
}

#[test]
fn escape_leaves_clean_buffers_alone() {
    let mut data = vec![1, 2, 3, 4, 0, 1, 0, 2];
    add_start_code_emulation_prevention_3_byte(&mut data);
    assert_eq!(data, vec![1, 2, 3, 4, 0, 1, 0, 2]);
}

#[test]
fn escape_breaks_up_zero_runs() {
    let mut data = vec![0, 0, 0];
    add_start_code_emulation_prevention_3_byte(&mut data);
    assert_eq!(data, vec![0, 0, 3, 0]);
    let mut data = vec![0, 0, 1, 0, 0, 2];
    add_start_code_emulation_prevention_3_byte(&mut data);
    assert_eq!(data, vec![0, 0, 3, 1, 0, 0, 3, 2]);
}

#[test]
fn escape_then_unescape_round_trips() {
    let cases: Vec<Vec<u8>> = vec![
        vec![],
        vec![0],
        vec![0, 0],
        vec![0, 0, 0],
        vec![0, 0, 1, 0, 0, 2, 0, 0, 3],
        vec![0, 0, 0, 0, 0, 0],
        vec![7, 0, 0, 2, 9, 0, 0, 0, 1],
    ];
    for case in cases {
        let mut escaped = case.clone();
        add_start_code_emulation_prevention_3_byte(&mut escaped);
        let back = clear_start_code_emulation_prevention_3_byte(&escaped);
        assert_eq!(back, case);
    }
}
