use hevc_parser::nal::NALUnit;
use hevc_parser::slice::SliceNAL;
use hevc_parser::HevcParser;

fn slice_with(poc: u64, key: bool) -> SliceNAL {
    let mut s = SliceNAL::empty();
    s.first_slice_in_pic_flag = true;
    s.key_frame = key;
    s.output_picture_number = poc;
    s.slice_type = if key { 2 } else { 0 };
    s
}

fn feed(parser: &mut HevcParser, poc: u64, key: bool) {
    let mut nal = NALUnit::empty();
    nal.nal_type = if key { 19 } else { 1 };
    parser.handle_slice(&mut nal, slice_with(poc, key));
}

#[test]
fn frames_reorder_at_each_random_access_point() {
    let mut parser = HevcParser::default();
    // two groups in decode order, presentation numbers [2,0,1] and [5,3,4]
    feed(&mut parser, 2, true);
    feed(&mut parser, 0, false);
    feed(&mut parser, 1, false);
    feed(&mut parser, 5, true);
    feed(&mut parser, 3, false);
    feed(&mut parser, 4, false);
    parser.finish();
    let ordered = parser.ordered_frames();
    assert_eq!(ordered.len(), 6);
    let pns: Vec<u64> = ordered.iter().map(|f| f.presentation_number).collect();
    assert_eq!(pns, vec![0, 1, 2, 3, 4, 5]);
    // decode order preserved within each group
    let decs: Vec<u64> = ordered.iter().map(|f| f.decoded_number).collect();
    assert_eq!(decs, vec![1, 2, 0, 4, 5, 3]);
}

#[test]
fn finish_twice_leaves_ordered_frames_unchanged() {
    let mut parser = HevcParser::default();
    feed(&mut parser, 1, true);
    feed(&mut parser, 0, false);
    parser.finish();
    let snapshot: Vec<(u64, u64, u64)> = parser
        .ordered_frames()
        .iter()
        .map(|f| (f.presentation_number, f.decoded_number, f.frame_type))
        .collect();
    parser.finish();
    let again: Vec<(u64, u64, u64)> = parser
        .ordered_frames()
        .iter()
        .map(|f| (f.presentation_number, f.decoded_number, f.frame_type))
        .collect();
    assert_eq!(snapshot, again);
    assert_eq!(snapshot.len(), 2);
}

#[test]
fn closed_frame_takes_type_and_number_from_first_slice() {
    let mut parser = HevcParser::default();
    feed(&mut parser, 7, true);
    parser.finish();
    let ordered = parser.ordered_frames();
    assert_eq!(ordered.len(), 1);
    assert_eq!(ordered[0].frame_type, 2);
    // a single frame is renumbered to presentation slot zero
    assert_eq!(ordered[0].presentation_number, 0);
    assert_eq!(ordered[0].first_slice.output_picture_number, 7);
    assert_eq!(ordered[0].nals.len(), 1);
}

#[test]
fn processed_frames_are_cleared_at_key_frames() {
    let mut parser = HevcParser::default();
    feed(&mut parser, 0, true);
    feed(&mut parser, 1, false);
    assert_eq!(parser.processed_frames().len(), 1);
    // the next key slice closes and reorders everything gathered so far
    feed(&mut parser, 2, true);
    assert_eq!(parser.processed_frames().len(), 0);
    assert_eq!(parser.ordered_frames().len(), 2);
}
