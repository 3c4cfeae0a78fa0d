//! The picture parameter set.

use vstd::prelude::*;

use crate::bitreader::{se_of, ue_end, ue_value, BitReader};
use crate::errors::HevcError;
use crate::scaling::skip_scaling_list_data;
use crate::veccmp::eq_vec_u64;

verus! {

/// Decoded picture parameter set.
#[derive(Debug, Clone)]
pub struct PPSNAL {
    pub pps_id: u64,
    pub sps_id: u64,
    pub dependent_slice_segments_enabled_flag: bool,
    pub output_flag_present_flag: bool,
    pub num_extra_slice_header_bits: u8,
    pub sign_data_hiding_flag: bool,
    pub cabac_init_present_flag: bool,
    pub num_ref_idx_l0_default_active: u64,
    pub num_ref_idx_l1_default_active: u64,
    pub pic_init_qp_minus26: i64,
    pub constrained_intra_pred_flag: bool,
    pub transform_skip_enabled_flag: bool,
    pub cu_qp_delta_enabled_flag: bool,
    pub diff_cu_qp_delta_depth: u64,
    pub cb_qp_offset: i64,
    pub cr_qp_offset: i64,
    pub pic_slice_level_chroma_qp_offsets_present_flag: bool,
    pub weighted_pred_flag: bool,
    pub weighted_bipred_flag: bool,
    pub transquant_bypass_enable_flag: bool,
    pub tiles_enabled_flag: bool,
    pub entropy_coding_sync_enabled_flag: bool,
    pub num_tile_columns: u64,
    pub num_tile_rows: u64,
    pub uniform_spacing_flag: bool,
    pub column_widths: Vec<u64>,
    pub row_heights: Vec<u64>,
    pub loop_filter_across_tiles_enabled_flag: bool,
    pub seq_loop_filter_across_slices_enabled_flag: bool,
    pub deblocking_filter_control_present_flag: bool,
    pub deblocking_filter_override_enabled_flag: bool,
    pub disable_dbf: bool,
    pub beta_offset: i64,
    pub tc_offset: i64,
    pub scaling_list_data_present_flag: bool,
    pub lists_modification_present_flag: bool,
    pub log2_parallel_merge_level: u64,
    pub slice_header_extension_present_flag: bool,
    pub pps_extension_present_flag: bool,
}

/// Field-by-field equality of two picture parameter sets.
pub open spec fn pps_eq_spec(a: PPSNAL, b: PPSNAL) -> bool {
    &&& a.pps_id == b.pps_id
    &&& a.sps_id == b.sps_id
    &&& a.dependent_slice_segments_enabled_flag == b.dependent_slice_segments_enabled_flag
    &&& a.output_flag_present_flag == b.output_flag_present_flag
    &&& a.num_extra_slice_header_bits == b.num_extra_slice_header_bits
    &&& a.sign_data_hiding_flag == b.sign_data_hiding_flag
    &&& a.cabac_init_present_flag == b.cabac_init_present_flag
    &&& a.num_ref_idx_l0_default_active == b.num_ref_idx_l0_default_active
    &&& a.num_ref_idx_l1_default_active == b.num_ref_idx_l1_default_active
    &&& a.pic_init_qp_minus26 == b.pic_init_qp_minus26
    &&& a.constrained_intra_pred_flag == b.constrained_intra_pred_flag
    &&& a.transform_skip_enabled_flag == b.transform_skip_enabled_flag
    &&& a.cu_qp_delta_enabled_flag == b.cu_qp_delta_enabled_flag
    &&& a.diff_cu_qp_delta_depth == b.diff_cu_qp_delta_depth
    &&& a.cb_qp_offset == b.cb_qp_offset
    &&& a.cr_qp_offset == b.cr_qp_offset
    &&& a.pic_slice_level_chroma_qp_offsets_present_flag
        == b.pic_slice_level_chroma_qp_offsets_present_flag
    &&& a.weighted_pred_flag == b.weighted_pred_flag
    &&& a.weighted_bipred_flag == b.weighted_bipred_flag
    &&& a.transquant_bypass_enable_flag == b.transquant_bypass_enable_flag
    &&& a.tiles_enabled_flag == b.tiles_enabled_flag
    &&& a.entropy_coding_sync_enabled_flag == b.entropy_coding_sync_enabled_flag
    &&& a.num_tile_columns == b.num_tile_columns
    &&& a.num_tile_rows == b.num_tile_rows
    &&& a.uniform_spacing_flag == b.uniform_spacing_flag
    &&& a.column_widths@ == b.column_widths@
    &&& a.row_heights@ == b.row_heights@
    &&& a.loop_filter_across_tiles_enabled_flag == b.loop_filter_across_tiles_enabled_flag
    &&& a.seq_loop_filter_across_slices_enabled_flag
        == b.seq_loop_filter_across_slices_enabled_flag
    &&& a.deblocking_filter_control_present_flag == b.deblocking_filter_control_present_flag
    &&& a.deblocking_filter_override_enabled_flag == b.deblocking_filter_override_enabled_flag
    &&& a.disable_dbf == b.disable_dbf
    &&& a.beta_offset == b.beta_offset
    &&& a.tc_offset == b.tc_offset
    &&& a.scaling_list_data_present_flag == b.scaling_list_data_present_flag
    &&& a.lists_modification_present_flag == b.lists_modification_present_flag
    &&& a.log2_parallel_merge_level == b.log2_parallel_merge_level
    &&& a.slice_header_extension_present_flag == b.slice_header_extension_present_flag
    &&& a.pps_extension_present_flag == b.pps_extension_present_flag
}

impl PPSNAL {
    /// A zeroed picture parameter set.
    pub fn empty() -> (r: PPSNAL)
        ensures
            r.pps_id == 0,
            r.sps_id == 0,
            r.column_widths@.len() == 0,
            r.row_heights@.len() == 0,
    {
        PPSNAL {
            pps_id: 0,
            sps_id: 0,
            dependent_slice_segments_enabled_flag: false,
            output_flag_present_flag: false,
            num_extra_slice_header_bits: 0,
            sign_data_hiding_flag: false,
            cabac_init_present_flag: false,
            num_ref_idx_l0_default_active: 0,
            num_ref_idx_l1_default_active: 0,
            pic_init_qp_minus26: 0,
            constrained_intra_pred_flag: false,
            transform_skip_enabled_flag: false,
            cu_qp_delta_enabled_flag: false,
            diff_cu_qp_delta_depth: 0,
            cb_qp_offset: 0,
            cr_qp_offset: 0,
            pic_slice_level_chroma_qp_offsets_present_flag: false,
            weighted_pred_flag: false,
            weighted_bipred_flag: false,
            transquant_bypass_enable_flag: false,
            tiles_enabled_flag: false,
            entropy_coding_sync_enabled_flag: false,
            num_tile_columns: 0,
            num_tile_rows: 0,
            uniform_spacing_flag: false,
            column_widths: Vec::new(),
            row_heights: Vec::new(),
            loop_filter_across_tiles_enabled_flag: false,
            seq_loop_filter_across_slices_enabled_flag: false,
            deblocking_filter_control_present_flag: false,
            deblocking_filter_override_enabled_flag: false,
            disable_dbf: false,
            beta_offset: 0,
            tc_offset: 0,
            scaling_list_data_present_flag: false,
            lists_modification_present_flag: false,
            log2_parallel_merge_level: 0,
            slice_header_extension_present_flag: false,
            pps_extension_present_flag: false,
        }
    }

    /// Field-by-field equality with another picture parameter set.
    pub fn content_eq(&self, other: &PPSNAL) -> (r: bool)
        ensures
            r == pps_eq_spec(*self, *other),
    {
        self.pps_id == other.pps_id && self.sps_id == other.sps_id
            && self.dependent_slice_segments_enabled_flag
            == other.dependent_slice_segments_enabled_flag && self.output_flag_present_flag
            == other.output_flag_present_flag && self.num_extra_slice_header_bits
            == other.num_extra_slice_header_bits && self.sign_data_hiding_flag
            == other.sign_data_hiding_flag && self.cabac_init_present_flag
            == other.cabac_init_present_flag && self.num_ref_idx_l0_default_active
            == other.num_ref_idx_l0_default_active && self.num_ref_idx_l1_default_active
            == other.num_ref_idx_l1_default_active && self.pic_init_qp_minus26
            == other.pic_init_qp_minus26 && self.constrained_intra_pred_flag
            == other.constrained_intra_pred_flag && self.transform_skip_enabled_flag
            == other.transform_skip_enabled_flag && self.cu_qp_delta_enabled_flag
            == other.cu_qp_delta_enabled_flag && self.diff_cu_qp_delta_depth
            == other.diff_cu_qp_delta_depth && self.cb_qp_offset == other.cb_qp_offset
            && self.cr_qp_offset == other.cr_qp_offset
            && self.pic_slice_level_chroma_qp_offsets_present_flag
            == other.pic_slice_level_chroma_qp_offsets_present_flag && self.weighted_pred_flag
            == other.weighted_pred_flag && self.weighted_bipred_flag == other.weighted_bipred_flag
            && self.transquant_bypass_enable_flag == other.transquant_bypass_enable_flag
            && self.tiles_enabled_flag == other.tiles_enabled_flag
            && self.entropy_coding_sync_enabled_flag == other.entropy_coding_sync_enabled_flag
            && self.num_tile_columns == other.num_tile_columns && self.num_tile_rows
            == other.num_tile_rows && self.uniform_spacing_flag == other.uniform_spacing_flag
            && eq_vec_u64(&self.column_widths, &other.column_widths) && eq_vec_u64(
            &self.row_heights,
            &other.row_heights,
        ) && self.loop_filter_across_tiles_enabled_flag
            == other.loop_filter_across_tiles_enabled_flag
            && self.seq_loop_filter_across_slices_enabled_flag
            == other.seq_loop_filter_across_slices_enabled_flag
            && self.deblocking_filter_control_present_flag
            == other.deblocking_filter_control_present_flag
            && self.deblocking_filter_override_enabled_flag
            == other.deblocking_filter_override_enabled_flag && self.disable_dbf
            == other.disable_dbf && self.beta_offset == other.beta_offset && self.tc_offset
            == other.tc_offset && self.scaling_list_data_present_flag
            == other.scaling_list_data_present_flag && self.lists_modification_present_flag
            == other.lists_modification_present_flag && self.log2_parallel_merge_level
            == other.log2_parallel_merge_level && self.slice_header_extension_present_flag
            == other.slice_header_extension_present_flag && self.pps_extension_present_flag
            == other.pps_extension_present_flag
    }

    /// Decode a picture parameter set, with the bit reader positioned just
    /// past the NAL header: the flag run, the quantisation offsets, the
    /// tile geometry when tiles are enabled, the deblocking controls, an
    /// optional scaling list, and the two extension flags.  On success the
    /// leading codes are pinned to their bits: the two ids are the first
    /// two exp-Golomb codes, and the reference counts and initial
    /// quantisation offset are the codes that follow the seven header
    /// bits.
    #[verifier::rlimit(100)]
    pub fn parse(bs: &mut BitReader) -> (r: Result<PPSNAL, HevcError>)
        requires
            old(bs).wf(),
        ensures
            final(bs).wf(),
            final(bs).bytes() == old(bs).bytes(),
            r matches Ok(pps) ==> ({
                let b = old(bs).bytes();
                let c = old(bs).cursor();
                let p = ue_end(b, ue_end(b, c)) + 7;
                &&& pps.num_extra_slice_header_bits < 8
                &&& pps.pps_id == ue_value(b, c)
                &&& pps.sps_id == ue_value(b, ue_end(b, c))
                &&& pps.num_ref_idx_l0_default_active == ue_value(b, p) + 1
                &&& pps.num_ref_idx_l1_default_active == ue_value(b, ue_end(b, p)) + 1
                &&& pps.pic_init_qp_minus26 == se_of(ue_value(b, ue_end(b, ue_end(b, p))))
            }),
    {
        proof {
            vstd::arithmetic::power2::lemma2_to64();
        }
        let mut pps = PPSNAL::empty();
        pps.pps_id = bs.get_ue()?;
        pps.sps_id = bs.get_ue()?;
        pps.dependent_slice_segments_enabled_flag = bs.get()?;
        pps.output_flag_present_flag = bs.get()?;
        pps.num_extra_slice_header_bits = bs.get_n(3)? as u8;
        pps.sign_data_hiding_flag = bs.get()?;
        pps.cabac_init_present_flag = bs.get()?;
        pps.num_ref_idx_l0_default_active = bs.get_ue()? + 1;
        pps.num_ref_idx_l1_default_active = bs.get_ue()? + 1;
        pps.pic_init_qp_minus26 = bs.get_se()?;
        let ghost pps0 = pps;
        pps.constrained_intra_pred_flag = bs.get()?;
        pps.transform_skip_enabled_flag = bs.get()?;
        pps.cu_qp_delta_enabled_flag = bs.get()?;
        if pps.cu_qp_delta_enabled_flag {
            pps.diff_cu_qp_delta_depth = bs.get_ue()?;
        }
        pps.cb_qp_offset = bs.get_se()?;
        pps.cr_qp_offset = bs.get_se()?;
        pps.pic_slice_level_chroma_qp_offsets_present_flag = bs.get()?;
        pps.weighted_pred_flag = bs.get()?;
        pps.weighted_bipred_flag = bs.get()?;
        pps.transquant_bypass_enable_flag = bs.get()?;
        pps.tiles_enabled_flag = bs.get()?;
        pps.entropy_coding_sync_enabled_flag = bs.get()?;
        if pps.tiles_enabled_flag {
            pps.num_tile_columns = bs.get_ue()? + 1;
            pps.num_tile_rows = bs.get_ue()? + 1;
            pps.uniform_spacing_flag = bs.get()?;
            if !pps.uniform_spacing_flag {
                let mut i: u64 = 1;
                while i < pps.num_tile_columns
                    invariant
                        bs.wf(),
                        bs.bytes() == old(bs).bytes(),
                        1 <= i <= pps.num_tile_columns,
                        pps.num_tile_rows >= 1,
                        pps.num_extra_slice_header_bits < 8,
                        pps.pps_id == pps0.pps_id,
                        pps.sps_id == pps0.sps_id,
                        pps.num_ref_idx_l0_default_active == pps0.num_ref_idx_l0_default_active,
                        pps.num_ref_idx_l1_default_active == pps0.num_ref_idx_l1_default_active,
                        pps.pic_init_qp_minus26 == pps0.pic_init_qp_minus26,
                    decreases pps.num_tile_columns - i,
                {
                    let v = bs.get_ue()? + 1;
                    pps.column_widths.push(v);
                    i = i + 1;
                }
                let mut i: u64 = 1;
                while i < pps.num_tile_rows
                    invariant
                        bs.wf(),
                        bs.bytes() == old(bs).bytes(),
                        1 <= i <= pps.num_tile_rows,
                        pps.num_extra_slice_header_bits < 8,
                        pps.pps_id == pps0.pps_id,
                        pps.sps_id == pps0.sps_id,
                        pps.num_ref_idx_l0_default_active == pps0.num_ref_idx_l0_default_active,
                        pps.num_ref_idx_l1_default_active == pps0.num_ref_idx_l1_default_active,
                        pps.pic_init_qp_minus26 == pps0.pic_init_qp_minus26,
                    decreases pps.num_tile_rows - i,
                {
                    let v = bs.get_ue()? + 1;
                    pps.row_heights.push(v);
                    i = i + 1;
                }
            }
            pps.loop_filter_across_tiles_enabled_flag = bs.get()?;
        }
        pps.seq_loop_filter_across_slices_enabled_flag = bs.get()?;
        pps.deblocking_filter_control_present_flag = bs.get()?;
        if pps.deblocking_filter_control_present_flag {
            pps.deblocking_filter_override_enabled_flag = bs.get()?;
            pps.disable_dbf = bs.get()?;
            if !pps.disable_dbf {
                pps.beta_offset = 2 * bs.get_se()?;
                pps.tc_offset = 2 * bs.get_se()?;
            }
        }
        pps.scaling_list_data_present_flag = bs.get()?;
        if pps.scaling_list_data_present_flag {
            skip_scaling_list_data(bs)?;
        }
        pps.lists_modification_present_flag = bs.get()?;
        pps.log2_parallel_merge_level = bs.get_ue()? + 2;
        pps.slice_header_extension_present_flag = bs.get()?;
        pps.pps_extension_present_flag = bs.get()?;
        Ok(pps)
    }
}

} // verus!
