//! The video parameter set.

use vstd::prelude::*;

use crate::bitreader::{bit_at, bits_value, ue_end, ue_value, BitReader};
use crate::ptl::ptl_end;
use crate::scaling::ue_chain_end;
use crate::errors::HevcError;
use crate::hrd::HrdParameters;
use crate::ptl::{ptl_eq_spec, ProfileTierLevel};
use crate::veccmp::eq_vec_u64;

verus! {

/// Decoded video parameter set.
#[derive(Debug, Clone)]
pub struct VPSNAL {
    pub vps_id: u8,
    pub vps_max_layers: u8,
    pub vps_max_sub_layers: u8,
    pub vps_temporal_id_nesting_flag: bool,
    pub ptl: ProfileTierLevel,
    pub vps_sub_layer_ordering_info_present_flag: bool,
    pub vps_max_dec_pic_buffering: Vec<u64>,
    pub vps_num_reorder_pics: Vec<u64>,
    /// The decoded max-latency values, with the sentinel mapping applied:
    /// a raw code of zero (no constraint) saturates to zero, anything else
    /// is the raw code minus one.
    pub vps_max_latency_increase: Vec<u64>,
    /// The raw max-latency ue(v) codes, kept beside the adjusted values so
    /// the no-constraint sentinel stays distinguishable.
    pub vps_max_latency_increase_raw: Vec<u64>,
    pub vps_max_layer_id: u8,
    pub vps_num_layer_sets: u64,
    pub vps_timing_info_present_flag: bool,
    pub vps_num_units_in_tick: u32,
    pub vps_time_scale: u32,
    pub vps_poc_proportional_to_timing_flag: bool,
    pub vps_num_ticks_poc_diff_one: u64,
    pub vps_num_hrd_parameters: u64,
}

/// Field-by-field equality of two video parameter sets.
pub open spec fn vps_eq_spec(a: VPSNAL, b: VPSNAL) -> bool {
    &&& a.vps_id == b.vps_id
    &&& a.vps_max_layers == b.vps_max_layers
    &&& a.vps_max_sub_layers == b.vps_max_sub_layers
    &&& a.vps_temporal_id_nesting_flag == b.vps_temporal_id_nesting_flag
    &&& ptl_eq_spec(a.ptl, b.ptl)
    &&& a.vps_sub_layer_ordering_info_present_flag == b.vps_sub_layer_ordering_info_present_flag
    &&& a.vps_max_dec_pic_buffering@ == b.vps_max_dec_pic_buffering@
    &&& a.vps_num_reorder_pics@ == b.vps_num_reorder_pics@
    &&& a.vps_max_latency_increase@ == b.vps_max_latency_increase@
    &&& a.vps_max_latency_increase_raw@ == b.vps_max_latency_increase_raw@
    &&& a.vps_max_layer_id == b.vps_max_layer_id
    &&& a.vps_num_layer_sets == b.vps_num_layer_sets
    &&& a.vps_timing_info_present_flag == b.vps_timing_info_present_flag
    &&& a.vps_num_units_in_tick == b.vps_num_units_in_tick
    &&& a.vps_time_scale == b.vps_time_scale
    &&& a.vps_poc_proportional_to_timing_flag == b.vps_poc_proportional_to_timing_flag
    &&& a.vps_num_ticks_poc_diff_one == b.vps_num_ticks_poc_diff_one
    &&& a.vps_num_hrd_parameters == b.vps_num_hrd_parameters
}

impl VPSNAL {
    /// A zeroed video parameter set.
    pub fn empty() -> (r: VPSNAL)
        ensures
            r.ptl.is_fresh(),
            r.vps_id == 0,
            r.vps_max_dec_pic_buffering@.len() == 0,
            r.vps_num_reorder_pics@.len() == 0,
            r.vps_max_latency_increase@.len() == 0,
            r.vps_max_latency_increase_raw@.len() == 0,
            r.vps_num_layer_sets == 0,
            r.vps_timing_info_present_flag == false,
            r.vps_num_units_in_tick == 0,
            r.vps_time_scale == 0,
            r.vps_poc_proportional_to_timing_flag == false,
            r.vps_num_ticks_poc_diff_one == 0,
            r.vps_num_hrd_parameters == 0,
    {
        VPSNAL {
            vps_id: 0,
            vps_max_layers: 0,
            vps_max_sub_layers: 0,
            vps_temporal_id_nesting_flag: false,
            ptl: ProfileTierLevel::empty(),
            vps_sub_layer_ordering_info_present_flag: false,
            vps_max_dec_pic_buffering: Vec::new(),
            vps_num_reorder_pics: Vec::new(),
            vps_max_latency_increase: Vec::new(),
            vps_max_latency_increase_raw: Vec::new(),
            vps_max_layer_id: 0,
            vps_num_layer_sets: 0,
            vps_timing_info_present_flag: false,
            vps_num_units_in_tick: 0,
            vps_time_scale: 0,
            vps_poc_proportional_to_timing_flag: false,
            vps_num_ticks_poc_diff_one: 0,
            vps_num_hrd_parameters: 0,
        }
    }

    /// Field-by-field equality with another video parameter set.
    pub fn content_eq(&self, other: &VPSNAL) -> (r: bool)
        ensures
            r == vps_eq_spec(*self, *other),
    {
        self.vps_id == other.vps_id && self.vps_max_layers == other.vps_max_layers
            && self.vps_max_sub_layers == other.vps_max_sub_layers
            && self.vps_temporal_id_nesting_flag == other.vps_temporal_id_nesting_flag
            && self.ptl.content_eq(&other.ptl) && self.vps_sub_layer_ordering_info_present_flag
            == other.vps_sub_layer_ordering_info_present_flag && eq_vec_u64(
            &self.vps_max_dec_pic_buffering,
            &other.vps_max_dec_pic_buffering,
        ) && eq_vec_u64(&self.vps_num_reorder_pics, &other.vps_num_reorder_pics) && eq_vec_u64(
            &self.vps_max_latency_increase,
            &other.vps_max_latency_increase,
        ) && eq_vec_u64(
            &self.vps_max_latency_increase_raw,
            &other.vps_max_latency_increase_raw,
        ) && self.vps_max_layer_id == other.vps_max_layer_id && self.vps_num_layer_sets
            == other.vps_num_layer_sets && self.vps_timing_info_present_flag
            == other.vps_timing_info_present_flag && self.vps_num_units_in_tick
            == other.vps_num_units_in_tick && self.vps_time_scale == other.vps_time_scale
            && self.vps_poc_proportional_to_timing_flag
            == other.vps_poc_proportional_to_timing_flag && self.vps_num_ticks_poc_diff_one
            == other.vps_num_ticks_poc_diff_one && self.vps_num_hrd_parameters
            == other.vps_num_hrd_parameters
    }

    /// Decode a video parameter set, with the bit reader positioned just
    /// past the NAL header.  The two reserved patterns must hold their
    /// fixed values (`3` and `0xFFFF`); anything else fails with
    /// `ReservedBitsViolation`.  The returned id fits the sixteen-entry
    /// table.
    #[verifier::rlimit(100)]
    pub fn parse(bs: &mut BitReader) -> (r: Result<VPSNAL, HevcError>)
        requires
            old(bs).wf(),
        ensures
            final(bs).wf(),
            final(bs).bytes() == old(bs).bytes(),
            r matches Ok(vps) ==> ({
                let b = old(bs).bytes();
                let c = old(bs).cursor();
                &&& vps.vps_id == bits_value(b, c, 4)
                &&& vps.vps_id <= 15
                &&& bits_value(b, c + 4, 2) == 3
                &&& vps.vps_max_layers == bits_value(b, c + 6, 6) + 1
                &&& vps.vps_max_sub_layers == bits_value(b, c + 12, 3) + 1
                &&& vps.vps_temporal_id_nesting_flag == bit_at(b, c + 15)
                &&& bits_value(b, c + 16, 16) == 0xFFFF
                &&& vps.vps_num_layer_sets >= 1
                &&& ({
                    let msl = bits_value(b, c + 12, 3) as int + 1;
                    let pe = ptl_end(b, c + 32, msl);
                    let cnt: nat = if bit_at(b, pe) {
                        (3 * msl) as nat
                    } else {
                        3
                    };
                    let oe = ue_chain_end(b, pe + 1, cnt);
                    &&& vps.vps_max_layer_id == bits_value(b, oe, 6)
                    &&& vps.vps_num_layer_sets == ue_value(b, oe + 6) + 1
                })
                &&& (!vps.vps_timing_info_present_flag ==> {
                    &&& vps.vps_num_units_in_tick == 0
                    &&& vps.vps_time_scale == 0
                    &&& !vps.vps_poc_proportional_to_timing_flag
                    &&& vps.vps_num_ticks_poc_diff_one == 0
                    &&& vps.vps_num_hrd_parameters == 0
                })
                &&& (!vps.vps_poc_proportional_to_timing_flag ==> vps.vps_num_ticks_poc_diff_one
                    == 0)
                &&& vps.vps_max_latency_increase@.len()
                    == vps.vps_max_latency_increase_raw@.len()
                &&& forall|i: int|
                    0 <= i < vps.vps_max_latency_increase@.len()
                        ==> #[trigger] vps.vps_max_latency_increase@[i] == (
                    if vps.vps_max_latency_increase_raw@[i] == 0 {
                        0u64
                    } else {
                        (vps.vps_max_latency_increase_raw@[i] - 1) as u64
                    })
            }),
            (r matches Err(HevcError::ReservedBitsViolation)) <==> ({
                let b = old(bs).bytes();
                let c = old(bs).cursor();
                let t = old(bs).total_bits();
                ||| (c + 6 <= t && bits_value(b, c + 4, 2) != 3)
                ||| (c + 32 <= t && bits_value(b, c + 4, 2) == 3 && bits_value(b, c + 16, 16)
                    != 0xFFFF)
            }),
    {
        proof {
            vstd::arithmetic::power2::lemma2_to64();
        }
        let mut vps = VPSNAL::empty();
        vps.vps_id = bs.get_n(4)? as u8;
        // vps_reserved_three_2bits
        if bs.get_n(2)? != 3 {
            return Err(HevcError::ReservedBitsViolation);
        }
        vps.vps_max_layers = bs.get_n(6)? as u8 + 1;
        vps.vps_max_sub_layers = bs.get_n(3)? as u8 + 1;
        vps.vps_temporal_id_nesting_flag = bs.get()?;
        // vps_reserved_ffff_16bits
        if bs.get_n(16)? != 0xFFFF {
            return Err(HevcError::ReservedBitsViolation);
        }
        let mut ptl = ProfileTierLevel::empty();
        ptl.parse(bs, vps.vps_max_sub_layers)?;
        vps.ptl = ptl;
        let ghost pe = bs.cursor();
        vps.vps_sub_layer_ordering_info_present_flag = bs.get()?;
        let start: u8 = if vps.vps_sub_layer_ordering_info_present_flag {
            0
        } else {
            vps.vps_max_sub_layers - 1
        };
        let ghost vps0 = vps;
        let mut layer: u8 = start;
        while layer < vps.vps_max_sub_layers
            invariant
                bs.wf(),
                bs.bytes() == old(bs).bytes(),
                start <= layer <= vps.vps_max_sub_layers,
                bs.cursor() == ue_chain_end(
                    old(bs).bytes(),
                    pe + 1,
                    (3 * (layer - start)) as nat,
                ),
                bits_value(old(bs).bytes(), old(bs).cursor() + 4, 2) == 3,
                bits_value(old(bs).bytes(), old(bs).cursor() + 16, 16) == 0xFFFF,
                vps.vps_id == vps0.vps_id,
                vps.vps_max_layers == vps0.vps_max_layers,
                vps.vps_max_sub_layers == vps0.vps_max_sub_layers,
                vps.vps_temporal_id_nesting_flag == vps0.vps_temporal_id_nesting_flag,
                vps.vps_timing_info_present_flag == vps0.vps_timing_info_present_flag,
                vps.vps_num_units_in_tick == vps0.vps_num_units_in_tick,
                vps.vps_time_scale == vps0.vps_time_scale,
                vps.vps_poc_proportional_to_timing_flag
                    == vps0.vps_poc_proportional_to_timing_flag,
                vps.vps_num_ticks_poc_diff_one == vps0.vps_num_ticks_poc_diff_one,
                vps.vps_num_hrd_parameters == vps0.vps_num_hrd_parameters,
                vps.vps_max_latency_increase@.len() == vps.vps_max_latency_increase_raw@.len(),
                forall|i: int|
                    0 <= i < vps.vps_max_latency_increase@.len()
                        ==> #[trigger] vps.vps_max_latency_increase@[i] == (
                    if vps.vps_max_latency_increase_raw@[i] == 0 {
                        0u64
                    } else {
                        (vps.vps_max_latency_increase_raw@[i] - 1) as u64
                    }),
            decreases vps.vps_max_sub_layers - layer,
        {
            proof {
                crate::scaling::lemma_ue_chain_snoc(
                    old(bs).bytes(),
                    pe + 1,
                    (3 * (layer - start)) as nat,
                );
                crate::scaling::lemma_ue_chain_snoc(
                    old(bs).bytes(),
                    pe + 1,
                    (3 * (layer - start) + 1) as nat,
                );
                crate::scaling::lemma_ue_chain_snoc(
                    old(bs).bytes(),
                    pe + 1,
                    (3 * (layer - start) + 2) as nat,
                );
            }
            let v = bs.get_ue()? + 1;
            vps.vps_max_dec_pic_buffering.push(v);
            let v = bs.get_ue()?;
            vps.vps_num_reorder_pics.push(v);
            let raw = bs.get_ue()?;
            vps.vps_max_latency_increase_raw.push(raw);
            let v = if raw == 0 {
                0
            } else {
                raw - 1
            };
            vps.vps_max_latency_increase.push(v);
            layer = layer + 1;
        }
        vps.vps_max_layer_id = bs.get_n(6)? as u8;
        vps.vps_num_layer_sets = bs.get_ue()? + 1;
        // layer_id_included_flag grid
        let rows = vps.vps_num_layer_sets - 1;
        let cols = vps.vps_max_layer_id as u64 + 1;
        proof {
            assert(rows * cols <= 0xFFFFFFFEu64 * 65) by (nonlinear_arith)
                requires
                    rows <= 0xFFFFFFFE,
                    cols <= 65,
            ;
        }
        bs.skip_n(rows * cols)?;
        let ghost vps1 = vps;
        vps.vps_timing_info_present_flag = bs.get()?;
        if vps.vps_timing_info_present_flag {
            vps.vps_num_units_in_tick = bs.get_n(32)? as u32;
            vps.vps_time_scale = bs.get_n(32)? as u32;
            vps.vps_poc_proportional_to_timing_flag = bs.get()?;
            if vps.vps_poc_proportional_to_timing_flag {
                vps.vps_num_ticks_poc_diff_one = bs.get_ue()? + 1;
            }
            vps.vps_num_hrd_parameters = bs.get_ue()?;
            let ghost vps2 = vps;
            let mut i: u64 = 0;
            while i < vps.vps_num_hrd_parameters
                invariant
                    bs.wf(),
                    bs.bytes() == old(bs).bytes(),
                    i <= vps.vps_num_hrd_parameters,
                    bits_value(old(bs).bytes(), old(bs).cursor() + 4, 2) == 3,
                    bits_value(old(bs).bytes(), old(bs).cursor() + 16, 16) == 0xFFFF,
                    vps.vps_id == vps1.vps_id,
                    vps.vps_max_layers == vps1.vps_max_layers,
                    vps.vps_max_sub_layers == vps1.vps_max_sub_layers,
                    vps.vps_temporal_id_nesting_flag == vps1.vps_temporal_id_nesting_flag,
                    vps.vps_num_layer_sets == vps2.vps_num_layer_sets,
                    vps.vps_timing_info_present_flag == vps2.vps_timing_info_present_flag,
                    vps.vps_poc_proportional_to_timing_flag
                        == vps2.vps_poc_proportional_to_timing_flag,
                    vps.vps_num_ticks_poc_diff_one == vps2.vps_num_ticks_poc_diff_one,
                    vps.vps_num_hrd_parameters == vps2.vps_num_hrd_parameters,
                    vps.vps_max_latency_increase@ == vps1.vps_max_latency_increase@,
                    vps.vps_max_latency_increase_raw@ == vps1.vps_max_latency_increase_raw@,
                decreases vps.vps_num_hrd_parameters - i,
            {
                let mut common_inf_present = false;
                let _ = bs.get_ue()?;  // hrd_layer_set_idx
                if i > 0 {
                    common_inf_present = bs.get()?;
                }
                HrdParameters::parse(bs, common_inf_present, vps.vps_max_sub_layers)?;
                i = i + 1;
            }
        }
        bs.skip_n(1)?;  // vps_extension_flag
        Ok(vps)
    }
}

} // verus!
