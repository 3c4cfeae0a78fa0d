use hevc_parser::context::Context;
use hevc_parser::pps::PPSNAL;
use hevc_parser::sps::SPSNAL;
use hevc_parser::vps::VPSNAL;

fn vps_with(id: u8, max_layers: u8) -> VPSNAL {
    let mut v = VPSNAL::empty();
    v.vps_id = id;
    v.vps_max_layers = max_layers;
    v
}

#[test]
fn shadowing_evicts_dependents() {
    let mut ctx = Context::new();
    ctx.apply_vps(vps_with(0, 1));
    let mut sps = SPSNAL::empty();
    sps.sps_id = 3;
    sps.vps_id = 0;
    ctx.apply_sps(sps);
    let mut pps = PPSNAL::empty();
    pps.pps_id = 5;
    pps.sps_id = 3;
    ctx.apply_pps(pps);
    assert!(ctx.vps_by_id(0).is_some());
    assert!(ctx.sps_by_id(3).is_some());
    assert!(ctx.pps_by_id(5).is_some());
    // a different VPS under the same id evicts the SPS and its PPS
    ctx.apply_vps(vps_with(0, 2));
    let v = ctx.vps_by_id(0).expect("new vps active");
    assert_eq!(v.vps_max_layers, 2);
    for id in 0..16u8 {
        if id != 0 {
            assert!(ctx.vps_by_id(id).is_none());
        }
    }
    for id in 0..16u64 {
        assert!(ctx.sps_by_id(id).is_none());
    }
    for id in 0..64u64 {
        assert!(ctx.pps_by_id(id).is_none());
    }
}

#[test]
fn identical_reinsert_is_a_no_op() {
    let mut ctx = Context::new();
    ctx.apply_vps(vps_with(0, 1));
    let mut sps = SPSNAL::empty();
    sps.sps_id = 3;
    sps.vps_id = 0;
    ctx.apply_sps(sps);
    // byte-identical VPS: the dependent SPS stays
    ctx.apply_vps(vps_with(0, 1));
    assert!(ctx.vps_by_id(0).is_some());
    assert!(ctx.sps_by_id(3).is_some());
}

#[test]
fn lookups_out_of_range_are_none() {
    let ctx = Context::new();
    assert!(ctx.vps_by_id(16).is_none());
    assert!(ctx.sps_by_id(16).is_none());
    assert!(ctx.pps_by_id(64).is_none());
}
