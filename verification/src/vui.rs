//! The video-usability-information block of an SPS.

use vstd::prelude::*;

use crate::bitreader::{bit_at, bits_value, BitReader};
use crate::errors::HevcError;
use crate::hrd::HrdParameters;

verus! {

/// Decoded vui_parameters: aspect ratio, signal description, chroma
/// location, display window, timing and bitstream-restriction fields.
#[derive(Debug, Clone)]
pub struct VuiParameters {
    pub sar_present: bool,
    pub sar_idx: u8,
    pub sar_num: u16,
    pub sar_den: u16,
    pub overscan_info_present_flag: bool,
    pub overscan_appropriate_flag: bool,
    pub video_signal_type_present_flag: bool,
    pub video_format: u8,
    pub video_full_range_flag: bool,
    pub colour_description_present_flag: bool,
    pub colour_primaries: u8,
    pub transfer_characteristic: u8,
    pub matrix_coeffs: u8,
    pub chroma_loc_info_present_flag: bool,
    pub chroma_sample_loc_type_top_field: u64,
    pub chroma_sample_loc_type_bottom_field: u64,
    pub neutral_chroma_indication_flag: bool,
    pub field_seq_flag: bool,
    pub frame_field_info_present_flag: bool,
    pub default_display_window_flag: bool,
    pub def_disp_win_left_offset: u64,
    pub def_disp_win_right_offset: u64,
    pub def_disp_win_top_offset: u64,
    pub def_disp_win_bottom_offset: u64,
    pub vui_timing_info_present_flag: bool,
    pub vui_num_units_in_tick: u32,
    pub vui_time_scale: u32,
    pub vui_poc_proportional_to_timing_flag: bool,
    pub vui_num_ticks_poc_diff_one_minus1: u64,
    pub vui_hrd_parameters_present_flag: bool,
    pub bitstream_restriction_flag: bool,
    pub tiles_fixed_structure_flag: bool,
    pub motion_vectors_over_pic_boundaries_flag: bool,
    pub restricted_ref_pic_lists_flag: bool,
    pub min_spatial_segmentation_idc: u64,
    pub max_bytes_per_pic_denom: u64,
    pub max_bits_per_min_cu_denom: u64,
    pub log2_max_mv_length_horizontal: u64,
    pub log2_max_mv_length_vertical: u64,
}

/// The sample aspect ratio the standard's table assigns to an indicator:
/// the sixteen listed ratios, zero over zero for anything unlisted.
pub open spec fn sar_spec(idc: u8) -> (u16, u16) {
    if idc == 1 {
        (1u16, 1u16)
    } else if idc == 2 {
        (12u16, 11u16)
    } else if idc == 3 {
        (10u16, 11u16)
    } else if idc == 4 {
        (16u16, 11u16)
    } else if idc == 5 {
        (40u16, 33u16)
    } else if idc == 6 {
        (24u16, 11u16)
    } else if idc == 7 {
        (20u16, 11u16)
    } else if idc == 8 {
        (32u16, 11u16)
    } else if idc == 9 {
        (80u16, 33u16)
    } else if idc == 10 {
        (18u16, 11u16)
    } else if idc == 11 {
        (15u16, 11u16)
    } else if idc == 12 {
        (64u16, 33u16)
    } else if idc == 13 {
        (160u16, 99u16)
    } else if idc == 14 {
        (4u16, 3u16)
    } else if idc == 15 {
        (3u16, 2u16)
    } else if idc == 16 {
        (2u16, 1u16)
    } else {
        (0u16, 0u16)
    }
}

/// Field-by-field equality of two vui_parameters records.
pub open spec fn vui_eq_spec(a: VuiParameters, b: VuiParameters) -> bool {
    &&& a.sar_present == b.sar_present
    &&& a.sar_idx == b.sar_idx
    &&& a.sar_num == b.sar_num
    &&& a.sar_den == b.sar_den
    &&& a.overscan_info_present_flag == b.overscan_info_present_flag
    &&& a.overscan_appropriate_flag == b.overscan_appropriate_flag
    &&& a.video_signal_type_present_flag == b.video_signal_type_present_flag
    &&& a.video_format == b.video_format
    &&& a.video_full_range_flag == b.video_full_range_flag
    &&& a.colour_description_present_flag == b.colour_description_present_flag
    &&& a.colour_primaries == b.colour_primaries
    &&& a.transfer_characteristic == b.transfer_characteristic
    &&& a.matrix_coeffs == b.matrix_coeffs
    &&& a.chroma_loc_info_present_flag == b.chroma_loc_info_present_flag
    &&& a.chroma_sample_loc_type_top_field == b.chroma_sample_loc_type_top_field
    &&& a.chroma_sample_loc_type_bottom_field == b.chroma_sample_loc_type_bottom_field
    &&& a.neutral_chroma_indication_flag == b.neutral_chroma_indication_flag
    &&& a.field_seq_flag == b.field_seq_flag
    &&& a.frame_field_info_present_flag == b.frame_field_info_present_flag
    &&& a.default_display_window_flag == b.default_display_window_flag
    &&& a.def_disp_win_left_offset == b.def_disp_win_left_offset
    &&& a.def_disp_win_right_offset == b.def_disp_win_right_offset
    &&& a.def_disp_win_top_offset == b.def_disp_win_top_offset
    &&& a.def_disp_win_bottom_offset == b.def_disp_win_bottom_offset
    &&& a.vui_timing_info_present_flag == b.vui_timing_info_present_flag
    &&& a.vui_num_units_in_tick == b.vui_num_units_in_tick
    &&& a.vui_time_scale == b.vui_time_scale
    &&& a.vui_poc_proportional_to_timing_flag == b.vui_poc_proportional_to_timing_flag
    &&& a.vui_num_ticks_poc_diff_one_minus1 == b.vui_num_ticks_poc_diff_one_minus1
    &&& a.vui_hrd_parameters_present_flag == b.vui_hrd_parameters_present_flag
    &&& a.bitstream_restriction_flag == b.bitstream_restriction_flag
    &&& a.tiles_fixed_structure_flag == b.tiles_fixed_structure_flag
    &&& a.motion_vectors_over_pic_boundaries_flag == b.motion_vectors_over_pic_boundaries_flag
    &&& a.restricted_ref_pic_lists_flag == b.restricted_ref_pic_lists_flag
    &&& a.min_spatial_segmentation_idc == b.min_spatial_segmentation_idc
    &&& a.max_bytes_per_pic_denom == b.max_bytes_per_pic_denom
    &&& a.max_bits_per_min_cu_denom == b.max_bits_per_min_cu_denom
    &&& a.log2_max_mv_length_horizontal == b.log2_max_mv_length_horizontal
    &&& a.log2_max_mv_length_vertical == b.log2_max_mv_length_vertical
}

impl VuiParameters {
    /// A record with every field zeroed.
    pub fn empty() -> (r: VuiParameters)
        ensures
            r == VuiParameters::empty_spec(),
    {
        VuiParameters {
            sar_present: false,
            sar_idx: 0,
            sar_num: 0,
            sar_den: 0,
            overscan_info_present_flag: false,
            overscan_appropriate_flag: false,
            video_signal_type_present_flag: false,
            video_format: 0,
            video_full_range_flag: false,
            colour_description_present_flag: false,
            colour_primaries: 0,
            transfer_characteristic: 0,
            matrix_coeffs: 0,
            chroma_loc_info_present_flag: false,
            chroma_sample_loc_type_top_field: 0,
            chroma_sample_loc_type_bottom_field: 0,
            neutral_chroma_indication_flag: false,
            field_seq_flag: false,
            frame_field_info_present_flag: false,
            default_display_window_flag: false,
            def_disp_win_left_offset: 0,
            def_disp_win_right_offset: 0,
            def_disp_win_top_offset: 0,
            def_disp_win_bottom_offset: 0,
            vui_timing_info_present_flag: false,
            vui_num_units_in_tick: 0,
            vui_time_scale: 0,
            vui_poc_proportional_to_timing_flag: false,
            vui_num_ticks_poc_diff_one_minus1: 0,
            vui_hrd_parameters_present_flag: false,
            bitstream_restriction_flag: false,
            tiles_fixed_structure_flag: false,
            motion_vectors_over_pic_boundaries_flag: false,
            restricted_ref_pic_lists_flag: false,
            min_spatial_segmentation_idc: 0,
            max_bytes_per_pic_denom: 0,
            max_bits_per_min_cu_denom: 0,
            log2_max_mv_length_horizontal: 0,
            log2_max_mv_length_vertical: 0,
        }
    }

    /// The zeroed record, as a value.
    pub open spec fn empty_spec() -> VuiParameters {
        VuiParameters {
            sar_present: false,
            sar_idx: 0,
            sar_num: 0,
            sar_den: 0,
            overscan_info_present_flag: false,
            overscan_appropriate_flag: false,
            video_signal_type_present_flag: false,
            video_format: 0,
            video_full_range_flag: false,
            colour_description_present_flag: false,
            colour_primaries: 0,
            transfer_characteristic: 0,
            matrix_coeffs: 0,
            chroma_loc_info_present_flag: false,
            chroma_sample_loc_type_top_field: 0,
            chroma_sample_loc_type_bottom_field: 0,
            neutral_chroma_indication_flag: false,
            field_seq_flag: false,
            frame_field_info_present_flag: false,
            default_display_window_flag: false,
            def_disp_win_left_offset: 0,
            def_disp_win_right_offset: 0,
            def_disp_win_top_offset: 0,
            def_disp_win_bottom_offset: 0,
            vui_timing_info_present_flag: false,
            vui_num_units_in_tick: 0,
            vui_time_scale: 0,
            vui_poc_proportional_to_timing_flag: false,
            vui_num_ticks_poc_diff_one_minus1: 0,
            vui_hrd_parameters_present_flag: false,
            bitstream_restriction_flag: false,
            tiles_fixed_structure_flag: false,
            motion_vectors_over_pic_boundaries_flag: false,
            restricted_ref_pic_lists_flag: false,
            min_spatial_segmentation_idc: 0,
            max_bytes_per_pic_denom: 0,
            max_bits_per_min_cu_denom: 0,
            log2_max_mv_length_horizontal: 0,
            log2_max_mv_length_vertical: 0,
        }
    }

    /// Field-by-field equality with another record.
    pub fn content_eq(&self, other: &VuiParameters) -> (r: bool)
        ensures
            r == vui_eq_spec(*self, *other),
    {
        self.sar_present == other.sar_present && self.sar_idx == other.sar_idx && self.sar_num
            == other.sar_num && self.sar_den == other.sar_den && self.overscan_info_present_flag
            == other.overscan_info_present_flag && self.overscan_appropriate_flag
            == other.overscan_appropriate_flag && self.video_signal_type_present_flag
            == other.video_signal_type_present_flag && self.video_format == other.video_format
            && self.video_full_range_flag == other.video_full_range_flag
            && self.colour_description_present_flag == other.colour_description_present_flag
            && self.colour_primaries == other.colour_primaries && self.transfer_characteristic
            == other.transfer_characteristic && self.matrix_coeffs == other.matrix_coeffs
            && self.chroma_loc_info_present_flag == other.chroma_loc_info_present_flag
            && self.chroma_sample_loc_type_top_field == other.chroma_sample_loc_type_top_field
            && self.chroma_sample_loc_type_bottom_field == other.chroma_sample_loc_type_bottom_field
            && self.neutral_chroma_indication_flag == other.neutral_chroma_indication_flag
            && self.field_seq_flag == other.field_seq_flag && self.frame_field_info_present_flag
            == other.frame_field_info_present_flag && self.default_display_window_flag
            == other.default_display_window_flag && self.def_disp_win_left_offset
            == other.def_disp_win_left_offset && self.def_disp_win_right_offset
            == other.def_disp_win_right_offset && self.def_disp_win_top_offset
            == other.def_disp_win_top_offset && self.def_disp_win_bottom_offset
            == other.def_disp_win_bottom_offset && self.vui_timing_info_present_flag
            == other.vui_timing_info_present_flag && self.vui_num_units_in_tick
            == other.vui_num_units_in_tick && self.vui_time_scale == other.vui_time_scale
            && self.vui_poc_proportional_to_timing_flag == other.vui_poc_proportional_to_timing_flag
            && self.vui_num_ticks_poc_diff_one_minus1 == other.vui_num_ticks_poc_diff_one_minus1
            && self.vui_hrd_parameters_present_flag == other.vui_hrd_parameters_present_flag
            && self.bitstream_restriction_flag == other.bitstream_restriction_flag
            && self.tiles_fixed_structure_flag == other.tiles_fixed_structure_flag
            && self.motion_vectors_over_pic_boundaries_flag
            == other.motion_vectors_over_pic_boundaries_flag && self.restricted_ref_pic_lists_flag
            == other.restricted_ref_pic_lists_flag && self.min_spatial_segmentation_idc
            == other.min_spatial_segmentation_idc && self.max_bytes_per_pic_denom
            == other.max_bytes_per_pic_denom && self.max_bits_per_min_cu_denom
            == other.max_bits_per_min_cu_denom && self.log2_max_mv_length_horizontal
            == other.log2_max_mv_length_horizontal && self.log2_max_mv_length_vertical
            == other.log2_max_mv_length_vertical
    }

    /// The sample aspect ratio of table E.1: index 1 to 16 map to the
    /// listed ratios, anything else to zero over zero.
    pub fn sar_from_idc(idc: u8) -> (r: (u16, u16))
        ensures
            r == sar_spec(idc),
    {
        match idc {
            1 => (1, 1),
            2 => (12, 11),
            3 => (10, 11),
            4 => (16, 11),
            5 => (40, 33),
            6 => (24, 11),
            7 => (20, 11),
            8 => (32, 11),
            9 => (80, 33),
            10 => (18, 11),
            11 => (15, 11),
            12 => (64, 33),
            13 => (160, 99),
            14 => (4, 3),
            15 => (3, 2),
            16 => (2, 1),
            _ => (0, 0),
        }
    }

    /// Decode a vui_parameters block with `max_sub_layers` sub-layers: the
    /// aspect ratio (explicit when the indicator is 255, from the standard
    /// table otherwise), overscan and signal-type information, chroma
    /// location, display window, timing with optional HRD parameters, and
    /// the bitstream restriction fields.
    #[verifier::rlimit(100)]
    pub fn parse(bs: &mut BitReader, max_sub_layers: u8) -> (r: Result<VuiParameters, HevcError>)
        requires
            old(bs).wf(),
        ensures
            final(bs).wf(),
            final(bs).bytes() == old(bs).bytes(),
            r matches Err(e) ==> (e == HevcError::BitstreamUnderrun || e
                == HevcError::FieldOutOfRange),
            r matches Ok(vui) ==> {
                &&& vui.sar_present == bit_at(old(bs).bytes(), old(bs).cursor())
                &&& vui.sar_present ==> vui.sar_idx == bits_value(
                    old(bs).bytes(),
                    old(bs).cursor() + 1,
                    8,
                )
                &&& (vui.sar_present && vui.sar_idx != 255) ==> (vui.sar_num, vui.sar_den)
                    == sar_spec(vui.sar_idx)
                &&& (vui.sar_present && vui.sar_idx == 255) ==> {
                    &&& vui.sar_num == bits_value(old(bs).bytes(), old(bs).cursor() + 9, 16)
                    &&& vui.sar_den == bits_value(old(bs).bytes(), old(bs).cursor() + 25, 16)
                }
                &&& !vui.sar_present ==> (vui.sar_idx == 0 && vui.sar_num == 0 && vui.sar_den
                    == 0)
            },
    {
        proof {
            vstd::arithmetic::power2::lemma2_to64();
        }
        let mut vui = VuiParameters::empty();
        vui.sar_present = bs.get()?;
        if vui.sar_present {
            vui.sar_idx = bs.get_n(8)? as u8;
            if vui.sar_idx == 255 {
                vui.sar_num = bs.get_n(16)? as u16;
                vui.sar_den = bs.get_n(16)? as u16;
            } else {
                let (num, den) = Self::sar_from_idc(vui.sar_idx);
                vui.sar_num = num;
                vui.sar_den = den;
            }
        }
        vui.overscan_info_present_flag = bs.get()?;
        if vui.overscan_info_present_flag {
            vui.overscan_appropriate_flag = bs.get()?;
        }
        vui.video_signal_type_present_flag = bs.get()?;
        if vui.video_signal_type_present_flag {
            vui.video_format = bs.get_n(3)? as u8;
            vui.video_full_range_flag = bs.get()?;
            vui.colour_description_present_flag = bs.get()?;
            if vui.colour_description_present_flag {
                vui.colour_primaries = bs.get_n(8)? as u8;
                vui.transfer_characteristic = bs.get_n(8)? as u8;
                vui.matrix_coeffs = bs.get_n(8)? as u8;
            }
        }
        vui.chroma_loc_info_present_flag = bs.get()?;
        if vui.chroma_loc_info_present_flag {
            vui.chroma_sample_loc_type_top_field = bs.get_ue()?;
            vui.chroma_sample_loc_type_bottom_field = bs.get_ue()?;
        }
        vui.neutral_chroma_indication_flag = bs.get()?;
        vui.field_seq_flag = bs.get()?;
        vui.frame_field_info_present_flag = bs.get()?;
        vui.default_display_window_flag = bs.get()?;
        if vui.default_display_window_flag {
            vui.def_disp_win_left_offset = bs.get_ue()?;
            vui.def_disp_win_right_offset = bs.get_ue()?;
            vui.def_disp_win_top_offset = bs.get_ue()?;
            vui.def_disp_win_bottom_offset = bs.get_ue()?;
        }
        vui.vui_timing_info_present_flag = bs.get()?;
        if vui.vui_timing_info_present_flag {
            vui.vui_num_units_in_tick = bs.get_n(32)? as u32;
            vui.vui_time_scale = bs.get_n(32)? as u32;
            vui.vui_poc_proportional_to_timing_flag = bs.get()?;
            if vui.vui_poc_proportional_to_timing_flag {
                vui.vui_num_ticks_poc_diff_one_minus1 = bs.get_ue()?;
            }
            vui.vui_hrd_parameters_present_flag = bs.get()?;
            if vui.vui_hrd_parameters_present_flag {
                HrdParameters::parse(bs, true, max_sub_layers)?;
            }
        }
        vui.bitstream_restriction_flag = bs.get()?;
        if vui.bitstream_restriction_flag {
            vui.tiles_fixed_structure_flag = bs.get()?;
            vui.motion_vectors_over_pic_boundaries_flag = bs.get()?;
            vui.restricted_ref_pic_lists_flag = bs.get()?;
            vui.min_spatial_segmentation_idc = bs.get_ue()?;
            vui.max_bytes_per_pic_denom = bs.get_ue()?;
            vui.max_bits_per_min_cu_denom = bs.get_ue()?;
            vui.log2_max_mv_length_horizontal = bs.get_ue()?;
            vui.log2_max_mv_length_vertical = bs.get_ue()?;
        }
        Ok(vui)
    }
}

} // verus!
