//! The sequence parameter set.

use vstd::prelude::*;
use vstd::arithmetic::power2::pow2;

use crate::bitreader::{bit_at, bits_value, ue_end, ue_value};
use vstd::bits::{lemma_u64_pow2_no_overflow, lemma_u64_shl_is_mul, lemma_u64_shr_is_div};

use crate::bitreader::BitReader;
use crate::errors::HevcError;
use crate::ptl::{ptl_eq_spec, ProfileTierLevel};
use crate::scaling::skip_scaling_list_data;
use crate::strps::{rps_eq_spec, ShortTermRPS};
use crate::veccmp::{eq_vec_bool, eq_vec_u64};
use crate::vui::{vui_eq_spec, VuiParameters};

verus! {

/// Division rounding up.
pub open spec fn ceil_div(x: int, d: int) -> int {
    (x + d - 1) / d
}

/// Element-wise equality of two vectors of reference picture sets.
pub open spec fn rps_seq_eq_spec(a: Seq<ShortTermRPS>, b: Seq<ShortTermRPS>) -> bool {
    &&& a.len() == b.len()
    &&& forall|i: int| 0 <= i < a.len() ==> rps_eq_spec(#[trigger] a[i], b[i])
}

/// Decoded sequence parameter set, with the block-size values derived from
/// it.
#[derive(Debug, Clone)]
pub struct SPSNAL {
    pub vps_id: u8,
    pub max_sub_layers: u8,
    pub temporal_id_nesting_flag: bool,
    pub ptl: ProfileTierLevel,
    pub sps_id: u64,
    pub chroma_format_idc: u64,
    pub separate_colour_plane_flag: bool,
    pub width: u64,
    pub height: u64,
    pub pic_conformance_flag: bool,
    pub conf_win_left_offset: u64,
    pub conf_win_right_offset: u64,
    pub conf_win_top_offset: u64,
    pub conf_win_bottom_offset: u64,
    pub bit_depth: u64,
    pub bit_depth_chroma: u64,
    pub log2_max_poc_lsb: u64,
    pub sublayer_ordering_info: bool,
    pub max_dec_pic_buffering: Vec<u64>,
    pub num_reorder_pics: Vec<u64>,
    /// The decoded max-latency values, with the sentinel mapping applied:
    /// a raw code of zero (no constraint) saturates to zero, anything else
    /// is the raw code minus one.
    pub max_latency_increase: Vec<u64>,
    /// The raw max-latency ue(v) codes, kept beside the adjusted values so
    /// the no-constraint sentinel stays distinguishable.
    pub max_latency_increase_raw: Vec<u64>,
    pub log2_min_cb_size: u64,
    pub log2_diff_max_min_coding_block_size: u64,
    pub log2_min_tb_size: u64,
    pub log2_diff_max_min_transform_block_size: u64,
    pub max_transform_hierarchy_depth_inter: u64,
    pub max_transform_hierarchy_depth_intra: u64,
    pub scaling_list_enabled_flag: bool,
    pub scaling_list_data_present_flag: bool,
    pub amp_enabled_flag: bool,
    pub sao_enabled_flag: bool,
    pub pcm_enabled_flag: bool,
    pub pcm_bit_depth: u8,
    pub pcm_bit_depth_chroma: u8,
    pub pcm_log2_min_pcm_cb_size: u64,
    pub pcm_log2_max_pcm_cb_size: u64,
    pub pcm_loop_filter_disable_flag: bool,
    pub nb_st_rps: u64,
    pub short_term_ref_pic_sets: Vec<ShortTermRPS>,
    pub long_term_ref_pics_present_flag: bool,
    pub num_long_term_ref_pics_sps: u64,
    pub lt_ref_pic_poc_lsb_sps: Vec<u64>,
    pub used_by_curr_pic_lt_sps_flag: Vec<bool>,
    pub sps_temporal_mvp_enabled_flag: bool,
    pub sps_strong_intra_smoothing_enable_flag: bool,
    pub vui_present: bool,
    pub vui_parameters: VuiParameters,
    pub sps_extension_flag: bool,
    pub log2_ctb_size: u64,
    pub log2_min_pu_size: u64,
    pub ctb_width: u64,
    pub ctb_height: u64,
    pub ctb_size: u64,
    pub min_cb_width: u64,
    pub min_cb_height: u64,
    pub min_tb_width: u64,
    pub min_tb_height: u64,
    pub min_pu_width: u64,
    pub min_pu_height: u64,
    pub tb_mask: u64,
}

/// Field-by-field equality of two sequence parameter sets.
pub open spec fn sps_eq_spec(a: SPSNAL, b: SPSNAL) -> bool {
    &&& a.vps_id == b.vps_id
    &&& a.max_sub_layers == b.max_sub_layers
    &&& a.temporal_id_nesting_flag == b.temporal_id_nesting_flag
    &&& ptl_eq_spec(a.ptl, b.ptl)
    &&& a.sps_id == b.sps_id
    &&& a.chroma_format_idc == b.chroma_format_idc
    &&& a.separate_colour_plane_flag == b.separate_colour_plane_flag
    &&& a.width == b.width
    &&& a.height == b.height
    &&& a.pic_conformance_flag == b.pic_conformance_flag
    &&& a.conf_win_left_offset == b.conf_win_left_offset
    &&& a.conf_win_right_offset == b.conf_win_right_offset
    &&& a.conf_win_top_offset == b.conf_win_top_offset
    &&& a.conf_win_bottom_offset == b.conf_win_bottom_offset
    &&& a.bit_depth == b.bit_depth
    &&& a.bit_depth_chroma == b.bit_depth_chroma
    &&& a.log2_max_poc_lsb == b.log2_max_poc_lsb
    &&& a.sublayer_ordering_info == b.sublayer_ordering_info
    &&& a.max_dec_pic_buffering@ == b.max_dec_pic_buffering@
    &&& a.num_reorder_pics@ == b.num_reorder_pics@
    &&& a.max_latency_increase@ == b.max_latency_increase@
    &&& a.max_latency_increase_raw@ == b.max_latency_increase_raw@
    &&& a.log2_min_cb_size == b.log2_min_cb_size
    &&& a.log2_diff_max_min_coding_block_size == b.log2_diff_max_min_coding_block_size
    &&& a.log2_min_tb_size == b.log2_min_tb_size
    &&& a.log2_diff_max_min_transform_block_size == b.log2_diff_max_min_transform_block_size
    &&& a.max_transform_hierarchy_depth_inter == b.max_transform_hierarchy_depth_inter
    &&& a.max_transform_hierarchy_depth_intra == b.max_transform_hierarchy_depth_intra
    &&& a.scaling_list_enabled_flag == b.scaling_list_enabled_flag
    &&& a.scaling_list_data_present_flag == b.scaling_list_data_present_flag
    &&& a.amp_enabled_flag == b.amp_enabled_flag
    &&& a.sao_enabled_flag == b.sao_enabled_flag
    &&& a.pcm_enabled_flag == b.pcm_enabled_flag
    &&& a.pcm_bit_depth == b.pcm_bit_depth
    &&& a.pcm_bit_depth_chroma == b.pcm_bit_depth_chroma
    &&& a.pcm_log2_min_pcm_cb_size == b.pcm_log2_min_pcm_cb_size
    &&& a.pcm_log2_max_pcm_cb_size == b.pcm_log2_max_pcm_cb_size
    &&& a.pcm_loop_filter_disable_flag == b.pcm_loop_filter_disable_flag
    &&& a.nb_st_rps == b.nb_st_rps
    &&& rps_seq_eq_spec(a.short_term_ref_pic_sets@, b.short_term_ref_pic_sets@)
    &&& a.long_term_ref_pics_present_flag == b.long_term_ref_pics_present_flag
    &&& a.num_long_term_ref_pics_sps == b.num_long_term_ref_pics_sps
    &&& a.lt_ref_pic_poc_lsb_sps@ == b.lt_ref_pic_poc_lsb_sps@
    &&& a.used_by_curr_pic_lt_sps_flag@ == b.used_by_curr_pic_lt_sps_flag@
    &&& a.sps_temporal_mvp_enabled_flag == b.sps_temporal_mvp_enabled_flag
    &&& a.sps_strong_intra_smoothing_enable_flag == b.sps_strong_intra_smoothing_enable_flag
    &&& a.vui_present == b.vui_present
    &&& vui_eq_spec(a.vui_parameters, b.vui_parameters)
    &&& a.sps_extension_flag == b.sps_extension_flag
}

impl SPSNAL {
    /// Range bounds and derived-value equations that hold of every parsed
    /// sequence parameter set: the picture-order window, the coding-block
    /// size ladder, and the coding-tree grid computed from the picture
    /// dimensions.
    pub open spec fn wf(self) -> bool {
        &&& 4 <= self.log2_max_poc_lsb <= 16
        &&& 3 <= self.log2_min_cb_size
        &&& self.log2_ctb_size == self.log2_min_cb_size
            + self.log2_diff_max_min_coding_block_size
        &&& self.log2_ctb_size <= 32
        &&& 2 <= self.log2_min_tb_size <= self.log2_ctb_size
        &&& self.log2_min_pu_size == self.log2_min_cb_size - 1
        &&& self.ctb_width == ceil_div(self.width as int, pow2(self.log2_ctb_size as nat) as int)
        &&& self.ctb_height == ceil_div(
            self.height as int,
            pow2(self.log2_ctb_size as nat) as int,
        )
        &&& self.ctb_size == self.ctb_width * self.ctb_height
        &&& self.min_cb_width == self.width as int / pow2(self.log2_min_cb_size as nat) as int
        &&& self.min_cb_height == self.height as int / pow2(self.log2_min_cb_size as nat) as int
        &&& self.min_tb_width == self.width as int / pow2(self.log2_min_tb_size as nat) as int
        &&& self.min_tb_height == self.height as int / pow2(self.log2_min_tb_size as nat) as int
        &&& self.min_pu_width == self.width as int / pow2(self.log2_min_pu_size as nat) as int
        &&& self.min_pu_height == self.height as int / pow2(self.log2_min_pu_size as nat) as int
        &&& self.tb_mask == pow2((self.log2_ctb_size - self.log2_min_tb_size) as nat) - 1
        &&& forall|j: int|
            0 <= j < self.short_term_ref_pic_sets@.len() ==> (
            #[trigger] self.short_term_ref_pic_sets@[j]).wf()
    }

    /// A zeroed sequence parameter set; not well formed until parsed.
    pub fn empty() -> (r: SPSNAL)
        ensures
            r.ptl.is_fresh(),
            r.max_dec_pic_buffering@.len() == 0,
            r.num_reorder_pics@.len() == 0,
            r.max_latency_increase@.len() == 0,
            r.max_latency_increase_raw@.len() == 0,
            r.short_term_ref_pic_sets@.len() == 0,
            r.lt_ref_pic_poc_lsb_sps@.len() == 0,
            r.used_by_curr_pic_lt_sps_flag@.len() == 0,
            r.vps_id == 0,
            r.sps_id == 0,
            r.separate_colour_plane_flag == false,
    {
        SPSNAL {
            vps_id: 0,
            max_sub_layers: 0,
            temporal_id_nesting_flag: false,
            ptl: ProfileTierLevel::empty(),
            sps_id: 0,
            chroma_format_idc: 0,
            separate_colour_plane_flag: false,
            width: 0,
            height: 0,
            pic_conformance_flag: false,
            conf_win_left_offset: 0,
            conf_win_right_offset: 0,
            conf_win_top_offset: 0,
            conf_win_bottom_offset: 0,
            bit_depth: 0,
            bit_depth_chroma: 0,
            log2_max_poc_lsb: 0,
            sublayer_ordering_info: false,
            max_dec_pic_buffering: Vec::new(),
            num_reorder_pics: Vec::new(),
            max_latency_increase: Vec::new(),
            max_latency_increase_raw: Vec::new(),
            log2_min_cb_size: 0,
            log2_diff_max_min_coding_block_size: 0,
            log2_min_tb_size: 0,
            log2_diff_max_min_transform_block_size: 0,
            max_transform_hierarchy_depth_inter: 0,
            max_transform_hierarchy_depth_intra: 0,
            scaling_list_enabled_flag: false,
            scaling_list_data_present_flag: false,
            amp_enabled_flag: false,
            sao_enabled_flag: false,
            pcm_enabled_flag: false,
            pcm_bit_depth: 0,
            pcm_bit_depth_chroma: 0,
            pcm_log2_min_pcm_cb_size: 0,
            pcm_log2_max_pcm_cb_size: 0,
            pcm_loop_filter_disable_flag: false,
            nb_st_rps: 0,
            short_term_ref_pic_sets: Vec::new(),
            long_term_ref_pics_present_flag: false,
            num_long_term_ref_pics_sps: 0,
            lt_ref_pic_poc_lsb_sps: Vec::new(),
            used_by_curr_pic_lt_sps_flag: Vec::new(),
            sps_temporal_mvp_enabled_flag: false,
            sps_strong_intra_smoothing_enable_flag: false,
            vui_present: false,
            vui_parameters: VuiParameters::empty(),
            sps_extension_flag: false,
            log2_ctb_size: 0,
            log2_min_pu_size: 0,
            ctb_width: 0,
            ctb_height: 0,
            ctb_size: 0,
            min_cb_width: 0,
            min_cb_height: 0,
            min_tb_width: 0,
            min_tb_height: 0,
            min_pu_width: 0,
            min_pu_height: 0,
            tb_mask: 0,
        }
    }

    /// Field-by-field equality with another sequence parameter set (the
    /// parsed fields; the derived values follow from them).
    pub fn content_eq(&self, other: &SPSNAL) -> (r: bool)
        ensures
            r == sps_eq_spec(*self, *other),
    {
        let mut same = self.vps_id == other.vps_id && self.max_sub_layers == other.max_sub_layers
            && self.temporal_id_nesting_flag == other.temporal_id_nesting_flag
            && self.ptl.content_eq(&other.ptl) && self.sps_id == other.sps_id
            && self.chroma_format_idc == other.chroma_format_idc
            && self.separate_colour_plane_flag == other.separate_colour_plane_flag && self.width
            == other.width && self.height == other.height && self.pic_conformance_flag
            == other.pic_conformance_flag && self.conf_win_left_offset
            == other.conf_win_left_offset && self.conf_win_right_offset
            == other.conf_win_right_offset && self.conf_win_top_offset == other.conf_win_top_offset
            && self.conf_win_bottom_offset == other.conf_win_bottom_offset && self.bit_depth
            == other.bit_depth && self.bit_depth_chroma == other.bit_depth_chroma
            && self.log2_max_poc_lsb == other.log2_max_poc_lsb && self.sublayer_ordering_info
            == other.sublayer_ordering_info && eq_vec_u64(
            &self.max_dec_pic_buffering,
            &other.max_dec_pic_buffering,
        ) && eq_vec_u64(&self.num_reorder_pics, &other.num_reorder_pics) && eq_vec_u64(
            &self.max_latency_increase,
            &other.max_latency_increase,
        ) && eq_vec_u64(
            &self.max_latency_increase_raw,
            &other.max_latency_increase_raw,
        ) && self.log2_min_cb_size == other.log2_min_cb_size
            && self.log2_diff_max_min_coding_block_size
            == other.log2_diff_max_min_coding_block_size && self.log2_min_tb_size
            == other.log2_min_tb_size && self.log2_diff_max_min_transform_block_size
            == other.log2_diff_max_min_transform_block_size
            && self.max_transform_hierarchy_depth_inter
            == other.max_transform_hierarchy_depth_inter
            && self.max_transform_hierarchy_depth_intra
            == other.max_transform_hierarchy_depth_intra && self.scaling_list_enabled_flag
            == other.scaling_list_enabled_flag && self.scaling_list_data_present_flag
            == other.scaling_list_data_present_flag && self.amp_enabled_flag
            == other.amp_enabled_flag && self.sao_enabled_flag == other.sao_enabled_flag
            && self.pcm_enabled_flag == other.pcm_enabled_flag && self.pcm_bit_depth
            == other.pcm_bit_depth && self.pcm_bit_depth_chroma == other.pcm_bit_depth_chroma
            && self.pcm_log2_min_pcm_cb_size == other.pcm_log2_min_pcm_cb_size
            && self.pcm_log2_max_pcm_cb_size == other.pcm_log2_max_pcm_cb_size
            && self.pcm_loop_filter_disable_flag == other.pcm_loop_filter_disable_flag
            && self.nb_st_rps == other.nb_st_rps && self.long_term_ref_pics_present_flag
            == other.long_term_ref_pics_present_flag && self.num_long_term_ref_pics_sps
            == other.num_long_term_ref_pics_sps && eq_vec_u64(
            &self.lt_ref_pic_poc_lsb_sps,
            &other.lt_ref_pic_poc_lsb_sps,
        ) && eq_vec_bool(&self.used_by_curr_pic_lt_sps_flag, &other.used_by_curr_pic_lt_sps_flag)
            && self.sps_temporal_mvp_enabled_flag == other.sps_temporal_mvp_enabled_flag
            && self.sps_strong_intra_smoothing_enable_flag
            == other.sps_strong_intra_smoothing_enable_flag && self.vui_present
            == other.vui_present && self.vui_parameters.content_eq(&other.vui_parameters)
            && self.sps_extension_flag == other.sps_extension_flag;
        if !same {
            return false;
        }
        if self.short_term_ref_pic_sets.len() != other.short_term_ref_pic_sets.len() {
            return false;
        }
        let mut i: usize = 0;
        while i < self.short_term_ref_pic_sets.len()
            invariant
                i <= self.short_term_ref_pic_sets@.len(),
                self.short_term_ref_pic_sets@.len() == other.short_term_ref_pic_sets@.len(),
                forall|j: int|
                    0 <= j < i ==> rps_eq_spec(
                        #[trigger] self.short_term_ref_pic_sets@[j],
                        other.short_term_ref_pic_sets@[j],
                    ),
            decreases self.short_term_ref_pic_sets@.len() - i,
        {
            if !self.short_term_ref_pic_sets[i].content_eq(&other.short_term_ref_pic_sets[i]) {
                return false;
            }
            i = i + 1;
        }
        true
    }

    /// Decode a sequence parameter set, with the bit reader positioned
    /// just past the NAL header.  On success the returned record satisfies
    /// the range bounds and derived-value equations of `wf`; a field that
    /// would put a shift or the picture-order window out of range fails
    /// with `FieldOutOfRange`.
    #[verifier::rlimit(100)]
    pub fn parse(bs: &mut BitReader) -> (r: Result<SPSNAL, HevcError>)
        requires
            old(bs).wf(),
        ensures
            final(bs).wf(),
            final(bs).bytes() == old(bs).bytes(),
            r matches Ok(sps) ==> ({
                let b = old(bs).bytes();
                let c = old(bs).cursor();
                &&& sps.wf()
                &&& sps.vps_id == bits_value(b, c, 4)
                &&& sps.max_sub_layers == bits_value(b, c + 4, 3) + 1
                &&& sps.temporal_id_nesting_flag == bit_at(b, c + 7)
                &&& ({
                    let m = crate::ptl::ptl_end(b, c + 8, bits_value(b, c + 4, 3) as int + 1);
                    let m1 = ue_end(b, m);
                    &&& sps.sps_id == ue_value(b, m)
                    &&& sps.separate_colour_plane_flag == (ue_value(b, m1) == 3 && bit_at(
                        b,
                        ue_end(b, m1),
                    ))
                    &&& sps.chroma_format_idc == (if ue_value(b, m1) == 3 && bit_at(
                        b,
                        ue_end(b, m1),
                    ) {
                        0nat
                    } else {
                        ue_value(b, m1)
                    })
                })
                &&& sps.separate_colour_plane_flag ==> sps.chroma_format_idc == 0
                &&& sps.bit_depth >= 8
                &&& sps.bit_depth_chroma >= 8
                &&& sps.max_latency_increase@.len() == sps.max_latency_increase_raw@.len()
                &&& forall|i: int|
                    0 <= i < sps.max_latency_increase@.len()
                        ==> #[trigger] sps.max_latency_increase@[i] == (
                    if sps.max_latency_increase_raw@[i] == 0 {
                        0u64
                    } else {
                        (sps.max_latency_increase_raw@[i] - 1) as u64
                    })
            }),
    {
        proof {
            vstd::arithmetic::power2::lemma2_to64();
        }
        let mut sps = SPSNAL::empty();
        sps.vps_id = bs.get_n(4)? as u8;
        sps.max_sub_layers = bs.get_n(3)? as u8 + 1;
        sps.temporal_id_nesting_flag = bs.get()?;
        let mut ptl = ProfileTierLevel::empty();
        ptl.parse(bs, sps.max_sub_layers)?;
        sps.ptl = ptl;
        Self::parse_mid(&mut sps, bs)?;
        Self::parse_tail(&mut sps, bs)?;
        Ok(sps)
    }

    /// Decode the middle of a sequence parameter set, from its id through
    /// the sub-layer ordering information.  A picture-order window wider
    /// than sixteen bits fails with `FieldOutOfRange`.
    #[verifier::rlimit(100)]
    fn parse_mid(sps: &mut SPSNAL, bs: &mut BitReader) -> (r: Result<(), HevcError>)
        requires
            old(bs).wf(),
            old(sps).short_term_ref_pic_sets@.len() == 0,
            old(sps).max_latency_increase@.len() == 0,
            old(sps).max_latency_increase_raw@.len() == 0,
            old(sps).max_sub_layers >= 1,
            old(sps).separate_colour_plane_flag == false,
        ensures
            final(bs).wf(),
            final(bs).bytes() == old(bs).bytes(),
            r is Ok ==> ({
                let b = old(bs).bytes();
                let m = old(bs).cursor();
                let m1 = ue_end(b, m);
                let m2 = ue_end(b, m1) + (if ue_value(b, m1) == 3 {
                    1int
                } else {
                    0
                });
                let m3 = ue_end(b, m2);
                let m4 = ue_end(b, m3) + 1;
                let m5 = if bit_at(b, m4 - 1) {
                    ue_end(b, ue_end(b, ue_end(b, ue_end(b, m4))))
                } else {
                    m4
                };
                &&& final(sps).sps_id == ue_value(b, m)
                &&& final(sps).chroma_format_idc == (if ue_value(b, m1) == 3 && bit_at(
                    b,
                    ue_end(b, m1),
                ) {
                    0nat
                } else {
                    ue_value(b, m1)
                })
                &&& final(sps).separate_colour_plane_flag == (ue_value(b, m1) == 3 && bit_at(
                    b,
                    ue_end(b, m1),
                ))
                &&& final(sps).width == ue_value(b, m2)
                &&& final(sps).height == ue_value(b, m3)
                &&& final(sps).bit_depth == ue_value(b, m5) + 8
                &&& final(sps).bit_depth_chroma == ue_value(b, ue_end(b, m5)) + 8
                &&& final(sps).log2_max_poc_lsb == ue_value(b, ue_end(b, ue_end(b, m5))) + 4
                &&& final(sps).vps_id == old(sps).vps_id
                &&& final(sps).max_sub_layers == old(sps).max_sub_layers
                &&& final(sps).temporal_id_nesting_flag == old(sps).temporal_id_nesting_flag
                &&& final(sps).separate_colour_plane_flag ==> final(sps).chroma_format_idc == 0
                &&& final(sps).bit_depth >= 8
                &&& final(sps).bit_depth_chroma >= 8
                &&& final(sps).width <= 0xFFFFFFFE
                &&& final(sps).height <= 0xFFFFFFFE
                &&& 4 <= final(sps).log2_max_poc_lsb <= 16
                &&& final(sps).short_term_ref_pic_sets@.len() == 0
                &&& final(sps).max_latency_increase@.len() == final(sps).max_latency_increase_raw@.len()
                &&& forall|i: int|
                    0 <= i < final(sps).max_latency_increase@.len() ==> #[trigger] final(sps).max_latency_increase@[i] == (if final(sps).max_latency_increase_raw@[i] == 0 {
                        0u64
                    } else {
                        (final(sps).max_latency_increase_raw@[i] - 1) as u64
                    })
            }),
    {
        sps.sps_id = bs.get_ue()?;
        sps.chroma_format_idc = bs.get_ue()?;
        if sps.chroma_format_idc == 3 {
            sps.separate_colour_plane_flag = bs.get()?;
        }
        if sps.separate_colour_plane_flag {
            sps.chroma_format_idc = 0;
        }
        sps.width = bs.get_ue()?;
        sps.height = bs.get_ue()?;
        sps.pic_conformance_flag = bs.get()?;
        if sps.pic_conformance_flag {
            sps.conf_win_left_offset = bs.get_ue()?;
            sps.conf_win_right_offset = bs.get_ue()?;
            sps.conf_win_top_offset = bs.get_ue()?;
            sps.conf_win_bottom_offset = bs.get_ue()?;
        }
        sps.bit_depth = bs.get_ue()? + 8;
        sps.bit_depth_chroma = bs.get_ue()? + 8;
        sps.log2_max_poc_lsb = bs.get_ue()? + 4;
        if sps.log2_max_poc_lsb > 16 {
            return Err(HevcError::FieldOutOfRange);
        }
        sps.sublayer_ordering_info = bs.get()?;
        let start: u8 = if sps.sublayer_ordering_info {
            0
        } else {
            sps.max_sub_layers - 1
        };
        let ghost sps0 = sps;
        let mut layer: u8 = start;
        while layer < sps.max_sub_layers
            invariant
                bs.wf(),
                bs.bytes() == old(bs).bytes(),
                layer <= sps.max_sub_layers,
                sps.width <= 0xFFFFFFFE,
                sps.height <= 0xFFFFFFFE,
                4 <= sps.log2_max_poc_lsb <= 16,
                sps.short_term_ref_pic_sets@.len() == 0,
                sps.vps_id == sps0.vps_id,
                sps.max_sub_layers == sps0.max_sub_layers,
                sps.temporal_id_nesting_flag == sps0.temporal_id_nesting_flag,
                sps.separate_colour_plane_flag == sps0.separate_colour_plane_flag,
                sps.chroma_format_idc == sps0.chroma_format_idc,
                sps.sps_id == sps0.sps_id,
                sps.width == sps0.width,
                sps.height == sps0.height,
                sps.log2_max_poc_lsb == sps0.log2_max_poc_lsb,
                sps.bit_depth == sps0.bit_depth,
                sps.bit_depth_chroma == sps0.bit_depth_chroma,
                sps.bit_depth >= 8,
                sps.bit_depth_chroma >= 8,
                sps.separate_colour_plane_flag ==> sps.chroma_format_idc == 0,
                sps.max_latency_increase@.len() == sps.max_latency_increase_raw@.len(),
                forall|i: int|
                    0 <= i < sps.max_latency_increase@.len()
                        ==> #[trigger] sps.max_latency_increase@[i] == (
                    if sps.max_latency_increase_raw@[i] == 0 {
                        0u64
                    } else {
                        (sps.max_latency_increase_raw@[i] - 1) as u64
                    }),
            decreases sps.max_sub_layers - layer,
        {
            let v = bs.get_ue()? + 1;
            sps.max_dec_pic_buffering.push(v);
            let v = bs.get_ue()?;
            sps.num_reorder_pics.push(v);
            let raw = bs.get_ue()?;
            sps.max_latency_increase_raw.push(raw);
            let v = if raw == 0 {
                0
            } else {
                raw - 1
            };
            sps.max_latency_increase.push(v);
            layer = layer + 1;
        }
        Ok(())
    }

    /// Decode the remainder of a sequence parameter set, from the coding
    /// block sizes onward, and fill in the derived values.
    #[verifier::rlimit(100)]
    fn parse_tail(sps: &mut SPSNAL, bs: &mut BitReader) -> (r: Result<(), HevcError>)
        requires
            old(bs).wf(),
            old(sps).width <= 0xFFFFFFFE,
            old(sps).height <= 0xFFFFFFFE,
            4 <= old(sps).log2_max_poc_lsb <= 16,
            old(sps).short_term_ref_pic_sets@.len() == 0,
        ensures
            final(bs).wf(),
            final(bs).bytes() == old(bs).bytes(),
            r is Ok ==> {
                &&& final(sps).wf()
                &&& final(sps).vps_id == old(sps).vps_id
                &&& final(sps).max_sub_layers == old(sps).max_sub_layers
                &&& final(sps).temporal_id_nesting_flag == old(sps).temporal_id_nesting_flag
                &&& final(sps).separate_colour_plane_flag == old(sps).separate_colour_plane_flag
                &&& final(sps).chroma_format_idc == old(sps).chroma_format_idc
                &&& final(sps).sps_id == old(sps).sps_id
                &&& final(sps).width == old(sps).width
                &&& final(sps).height == old(sps).height
                &&& final(sps).log2_max_poc_lsb == old(sps).log2_max_poc_lsb
                &&& final(sps).bit_depth == old(sps).bit_depth
                &&& final(sps).bit_depth_chroma == old(sps).bit_depth_chroma
                &&& final(sps).max_latency_increase@ == old(sps).max_latency_increase@
                &&& final(sps).max_latency_increase_raw@ == old(sps).max_latency_increase_raw@
            },
    {
        proof {
            vstd::arithmetic::power2::lemma2_to64();
        }
        sps.log2_min_cb_size = bs.get_ue()? + 3;
        sps.log2_diff_max_min_coding_block_size = bs.get_ue()?;
        sps.log2_min_tb_size = bs.get_ue()? + 2;
        sps.log2_diff_max_min_transform_block_size = bs.get_ue()?;
        sps.max_transform_hierarchy_depth_inter = bs.get_ue()?;
        sps.max_transform_hierarchy_depth_intra = bs.get_ue()?;
        sps.scaling_list_enabled_flag = bs.get()?;
        if sps.scaling_list_enabled_flag {
            sps.scaling_list_data_present_flag = bs.get()?;
            if sps.scaling_list_data_present_flag {
                skip_scaling_list_data(bs)?;
            }
        }
        sps.amp_enabled_flag = bs.get()?;
        sps.sao_enabled_flag = bs.get()?;
        sps.pcm_enabled_flag = bs.get()?;
        if sps.pcm_enabled_flag {
            sps.pcm_bit_depth = bs.get_n(4)? as u8 + 1;
            sps.pcm_bit_depth_chroma = bs.get_n(4)? as u8 + 1;
            sps.pcm_log2_min_pcm_cb_size = bs.get_ue()? + 3;
            sps.pcm_log2_max_pcm_cb_size = bs.get_ue()? + sps.pcm_log2_min_pcm_cb_size;
            sps.pcm_loop_filter_disable_flag = bs.get()?;
        }
        sps.nb_st_rps = bs.get_ue()?;
        let mut i: u64 = 0;
        while i < sps.nb_st_rps
            invariant
                bs.wf(),
                bs.bytes() == old(bs).bytes(),
                i <= sps.nb_st_rps,
                sps.nb_st_rps <= 0xFFFFFFFE,
                sps.width <= 0xFFFFFFFE,
                sps.height <= 0xFFFFFFFE,
                4 <= sps.log2_max_poc_lsb <= 16,
                3 <= sps.log2_min_cb_size <= 0x100000001,
                2 <= sps.log2_min_tb_size <= 0x100000000,
                sps.log2_diff_max_min_coding_block_size <= 0xFFFFFFFE,
                sps.vps_id == old(sps).vps_id,
                sps.max_sub_layers == old(sps).max_sub_layers,
                sps.temporal_id_nesting_flag == old(sps).temporal_id_nesting_flag,
                sps.separate_colour_plane_flag == old(sps).separate_colour_plane_flag,
                sps.chroma_format_idc == old(sps).chroma_format_idc,
                sps.sps_id == old(sps).sps_id,
                sps.width == old(sps).width,
                sps.height == old(sps).height,
                sps.log2_max_poc_lsb == old(sps).log2_max_poc_lsb,
                sps.bit_depth == old(sps).bit_depth,
                sps.bit_depth_chroma == old(sps).bit_depth_chroma,
                sps.max_latency_increase@ == old(sps).max_latency_increase@,
                sps.max_latency_increase_raw@ == old(sps).max_latency_increase_raw@,
                sps.short_term_ref_pic_sets@.len() == i,
                forall|j: int|
                    0 <= j < sps.short_term_ref_pic_sets@.len() ==> (
                    #[trigger] sps.short_term_ref_pic_sets@[j]).wf(),
            decreases sps.nb_st_rps - i,
        {
            let rps = ShortTermRPS::parse(bs, &sps, i as usize, sps.nb_st_rps, false)?;
            sps.short_term_ref_pic_sets.push(rps);
            i = i + 1;
        }
        Self::parse_tail2(sps, bs)?;
        sps.compute_derived()?;
        Ok(())
    }

    /// Decode the closing stretch of a sequence parameter set: the
    /// long-term reference pictures, the prediction flags, the optional
    /// usability information and the extension flag.
    #[verifier::rlimit(100)]
    fn parse_tail2(sps: &mut SPSNAL, bs: &mut BitReader) -> (r: Result<(), HevcError>)
        requires
            old(bs).wf(),
            old(sps).width <= 0xFFFFFFFE,
            old(sps).height <= 0xFFFFFFFE,
            4 <= old(sps).log2_max_poc_lsb <= 16,
            3 <= old(sps).log2_min_cb_size <= 0x100000001,
            2 <= old(sps).log2_min_tb_size <= 0x100000000,
            old(sps).log2_diff_max_min_coding_block_size <= 0xFFFFFFFE,
            forall|j: int|
                0 <= j < old(sps).short_term_ref_pic_sets@.len() ==> (
                #[trigger] old(sps).short_term_ref_pic_sets@[j]).wf(),
        ensures
            final(bs).wf(),
            final(bs).bytes() == old(bs).bytes(),
            r is Ok ==> {
                &&& final(sps).vps_id == old(sps).vps_id
                &&& final(sps).max_sub_layers == old(sps).max_sub_layers
                &&& final(sps).temporal_id_nesting_flag == old(sps).temporal_id_nesting_flag
                &&& final(sps).separate_colour_plane_flag == old(sps).separate_colour_plane_flag
                &&& final(sps).chroma_format_idc == old(sps).chroma_format_idc
                &&& final(sps).sps_id == old(sps).sps_id
                &&& final(sps).width == old(sps).width
                &&& final(sps).height == old(sps).height
                &&& final(sps).log2_max_poc_lsb == old(sps).log2_max_poc_lsb
                &&& final(sps).bit_depth == old(sps).bit_depth
                &&& final(sps).bit_depth_chroma == old(sps).bit_depth_chroma
                &&& final(sps).max_latency_increase@ == old(sps).max_latency_increase@
                &&& final(sps).max_latency_increase_raw@ == old(sps).max_latency_increase_raw@
                &&& final(sps).log2_min_cb_size == old(sps).log2_min_cb_size
                &&& final(sps).log2_min_tb_size == old(sps).log2_min_tb_size
                &&& final(sps).log2_diff_max_min_coding_block_size == old(
                    sps,
                ).log2_diff_max_min_coding_block_size
                &&& final(sps).short_term_ref_pic_sets@ == old(sps).short_term_ref_pic_sets@
            },
    {
        sps.long_term_ref_pics_present_flag = bs.get()?;
        if sps.long_term_ref_pics_present_flag {
            sps.num_long_term_ref_pics_sps = bs.get_ue()?;
            let mut i: u64 = 0;
            while i < sps.num_long_term_ref_pics_sps
                invariant
                    bs.wf(),
                    bs.bytes() == old(bs).bytes(),
                    i <= sps.num_long_term_ref_pics_sps,
                    sps.num_long_term_ref_pics_sps <= 0xFFFFFFFE,
                    sps.width <= 0xFFFFFFFE,
                    sps.height <= 0xFFFFFFFE,
                    4 <= sps.log2_max_poc_lsb <= 16,
                    3 <= sps.log2_min_cb_size <= 0x100000001,
                    2 <= sps.log2_min_tb_size <= 0x100000000,
                    sps.log2_diff_max_min_coding_block_size <= 0xFFFFFFFE,
                    sps.vps_id == old(sps).vps_id,
                    sps.max_sub_layers == old(sps).max_sub_layers,
                    sps.temporal_id_nesting_flag == old(sps).temporal_id_nesting_flag,
                    sps.separate_colour_plane_flag == old(sps).separate_colour_plane_flag,
                    sps.chroma_format_idc == old(sps).chroma_format_idc,
                    sps.bit_depth == old(sps).bit_depth,
                    sps.bit_depth_chroma == old(sps).bit_depth_chroma,
                    sps.max_latency_increase@ == old(sps).max_latency_increase@,
                    sps.max_latency_increase_raw@ == old(sps).max_latency_increase_raw@,
                    sps.sps_id == old(sps).sps_id,
                    sps.width == old(sps).width,
                    sps.height == old(sps).height,
                    sps.log2_max_poc_lsb == old(sps).log2_max_poc_lsb,
                    sps.log2_min_cb_size == old(sps).log2_min_cb_size,
                    sps.log2_min_tb_size == old(sps).log2_min_tb_size,
                    sps.log2_diff_max_min_coding_block_size == old(
                        sps,
                    ).log2_diff_max_min_coding_block_size,
                    sps.short_term_ref_pic_sets@ == old(sps).short_term_ref_pic_sets@,
                    forall|j: int|
                        0 <= j < sps.short_term_ref_pic_sets@.len() ==> (
                        #[trigger] sps.short_term_ref_pic_sets@[j]).wf(),
                decreases sps.num_long_term_ref_pics_sps - i,
            {
                let v = bs.get_n(sps.log2_max_poc_lsb as usize)?;
                sps.lt_ref_pic_poc_lsb_sps.push(v);
                let b = bs.get()?;
                sps.used_by_curr_pic_lt_sps_flag.push(b);
                i = i + 1;
            }
        }
        sps.sps_temporal_mvp_enabled_flag = bs.get()?;
        sps.sps_strong_intra_smoothing_enable_flag = bs.get()?;
        sps.vui_present = bs.get()?;
        if sps.vui_present {
            let vui = VuiParameters::parse(bs, sps.max_sub_layers)?;
            sps.vui_parameters = vui;
        }
        sps.sps_extension_flag = bs.get()?;
        Ok(())
    }

    /// Fill in the values derived from the parsed fields: the coding-tree
    /// block size ladder and the block grids computed from the picture
    /// dimensions.  A ladder that would put a shift amount past 32 bits
    /// fails with `FieldOutOfRange`.
    #[verifier::rlimit(100)]
    fn compute_derived(&mut self) -> (r: Result<(), HevcError>)
        requires
            4 <= old(self).log2_max_poc_lsb <= 16,
            3 <= old(self).log2_min_cb_size <= 0x100000001,
            2 <= old(self).log2_min_tb_size <= 0x100000000,
            old(self).log2_diff_max_min_coding_block_size <= 0xFFFFFFFE,
            old(self).width <= 0xFFFFFFFE,
            old(self).height <= 0xFFFFFFFE,
            forall|j: int|
                0 <= j < old(self).short_term_ref_pic_sets@.len() ==> (
                #[trigger] old(self).short_term_ref_pic_sets@[j]).wf(),
        ensures
            r is Ok ==> {
                &&& final(self).wf()
                &&& final(self).vps_id == old(self).vps_id
                &&& final(self).max_sub_layers == old(self).max_sub_layers
                &&& final(self).temporal_id_nesting_flag == old(self).temporal_id_nesting_flag
                &&& final(self).separate_colour_plane_flag == old(self).separate_colour_plane_flag
                &&& final(self).chroma_format_idc == old(self).chroma_format_idc
                &&& final(self).sps_id == old(self).sps_id
                &&& final(self).width == old(self).width
                &&& final(self).height == old(self).height
                &&& final(self).log2_max_poc_lsb == old(self).log2_max_poc_lsb
                &&& final(self).bit_depth == old(self).bit_depth
                &&& final(self).bit_depth_chroma == old(self).bit_depth_chroma
                &&& final(self).max_latency_increase@ == old(self).max_latency_increase@
                &&& final(self).max_latency_increase_raw@ == old(self).max_latency_increase_raw@
            },
    {
        self.log2_ctb_size = self.log2_min_cb_size + self.log2_diff_max_min_coding_block_size;
        if self.log2_ctb_size > 32 {
            return Err(HevcError::FieldOutOfRange);
        }
        if self.log2_min_tb_size > self.log2_ctb_size {
            return Err(HevcError::FieldOutOfRange);
        }
        self.log2_min_pu_size = self.log2_min_cb_size - 1;
        proof {
            lemma_u64_pow2_no_overflow(self.log2_ctb_size as nat);
            lemma_u64_shl_is_mul(1u64, self.log2_ctb_size);
        }
        let ctb: u64 = 1u64 << self.log2_ctb_size;
        proof {
            vstd::arithmetic::power2::lemma2_to64();
            if self.log2_ctb_size < 32 {
                vstd::arithmetic::power2::lemma_pow2_strictly_increases(
                    self.log2_ctb_size as nat,
                    32,
                );
            }
            lemma_u64_shr_is_div((self.width + ctb - 1) as u64, self.log2_ctb_size);
            lemma_u64_shr_is_div((self.height + ctb - 1) as u64, self.log2_ctb_size);
        }
        self.ctb_width = (self.width + ctb - 1) >> self.log2_ctb_size;
        self.ctb_height = (self.height + ctb - 1) >> self.log2_ctb_size;
        self.ctb_size = match self.ctb_width.checked_mul(self.ctb_height) {
            Some(v) => v,
            None => {
                return Err(HevcError::FieldOutOfRange);
            },
        };
        proof {
            lemma_u64_shr_is_div(self.width, self.log2_min_cb_size);
            lemma_u64_shr_is_div(self.height, self.log2_min_cb_size);
            lemma_u64_shr_is_div(self.width, self.log2_min_tb_size);
            lemma_u64_shr_is_div(self.height, self.log2_min_tb_size);
            lemma_u64_shr_is_div(self.width, self.log2_min_pu_size);
            lemma_u64_shr_is_div(self.height, self.log2_min_pu_size);
        }
        self.min_cb_width = self.width >> self.log2_min_cb_size;
        self.min_cb_height = self.height >> self.log2_min_cb_size;
        self.min_tb_width = self.width >> self.log2_min_tb_size;
        self.min_tb_height = self.height >> self.log2_min_tb_size;
        self.min_pu_width = self.width >> self.log2_min_pu_size;
        self.min_pu_height = self.height >> self.log2_min_pu_size;
        proof {
            lemma_u64_pow2_no_overflow((self.log2_ctb_size - self.log2_min_tb_size) as nat);
            lemma_u64_shl_is_mul(1u64, (self.log2_ctb_size - self.log2_min_tb_size) as u64);
        }
        self.tb_mask = (1u64 << (self.log2_ctb_size - self.log2_min_tb_size)) - 1;
        Ok(())
    }
}

} // verus!
