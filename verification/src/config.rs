//! The bit-level HEVC decoder configuration record carried by MP4 and
//! Matroska files.

use vstd::prelude::*;
use vstd::arithmetic::power2::{lemma2_to64, lemma2_to64_rest};

use crate::bitreader::{bits_value, BitReader};
use crate::errors::HevcError;

verus! {

/// The fixed fields of an ISO/IEC 14496-15 decoder configuration record;
/// the NAL unit arrays that follow are walked separately.
#[derive(Debug, Clone, Copy, PartialEq, Eq, Structural)]
pub struct HEVCDecoderConfigurationRecord {
    pub configuration_version: u8,
    pub general_profile_space: u8,
    pub general_tier_flag: bool,
    pub general_profile_idc: u8,
    pub general_profile_compatibility_flags: u32,
    pub general_constraint_indicator_flags: u64,
    pub general_level_idc: u8,
    pub min_spatial_segmentation_idc: u16,
    pub parallelism_type: u8,
    pub chroma_format_idc: u8,
    pub bit_depth_luma_minus8: u8,
    pub bit_depth_chroma_minus8: u8,
    pub avg_frame_rate: u16,
    pub constant_frame_rate: u8,
    pub num_temporal_layers: u8,
    pub temporal_id_nested: bool,
    pub length_size_minus_one: u8,
}

impl HEVCDecoderConfigurationRecord {
    /// Decode the 176-bit fixed prefix of a configuration record.
    /// Succeeds exactly when that many bits remain; the named fields then
    /// hold the values of their bit ranges, reserved runs skipped.
    pub fn parse(bs: &mut BitReader) -> (r: Result<HEVCDecoderConfigurationRecord, HevcError>)
        requires
            old(bs).wf(),
        ensures
            final(bs).wf(),
            final(bs).bytes() == old(bs).bytes(),
            r is Ok <==> old(bs).cursor() + 176 <= old(bs).total_bits(),
            r matches Err(e) ==> e == HevcError::BitstreamUnderrun,
            r matches Ok(c) ==> {
                &&& final(bs).cursor() == old(bs).cursor() + 176
                &&& c.configuration_version == bits_value(old(bs).bytes(), old(bs).cursor(), 8)
                &&& c.general_profile_idc == bits_value(old(bs).bytes(), old(bs).cursor() + 11, 5)
                &&& c.general_profile_compatibility_flags == bits_value(
                    old(bs).bytes(),
                    old(bs).cursor() + 16,
                    32,
                )
                &&& c.general_constraint_indicator_flags == bits_value(
                    old(bs).bytes(),
                    old(bs).cursor() + 48,
                    48,
                )
                &&& c.general_level_idc == bits_value(old(bs).bytes(), old(bs).cursor() + 96, 8)
                &&& c.min_spatial_segmentation_idc == bits_value(
                    old(bs).bytes(),
                    old(bs).cursor() + 108,
                    12,
                )
                &&& c.avg_frame_rate == bits_value(old(bs).bytes(), old(bs).cursor() + 152, 16)
                &&& c.num_temporal_layers == bits_value(old(bs).bytes(), old(bs).cursor() + 170, 3)
                &&& c.length_size_minus_one == bits_value(
                    old(bs).bytes(),
                    old(bs).cursor() + 174,
                    2,
                )
                &&& c.length_size_minus_one <= 3
            },
    {
        proof {
            lemma2_to64();
            lemma2_to64_rest();
        }
        let configuration_version = bs.get_n(8)? as u8;
        let general_profile_space = bs.get_n(2)? as u8;
        let general_tier_flag = bs.get()?;
        let general_profile_idc = bs.get_n(5)? as u8;
        let general_profile_compatibility_flags = bs.get_n(32)? as u32;
        let general_constraint_indicator_flags = bs.get_n(48)?;
        let general_level_idc = bs.get_n(8)? as u8;
        bs.skip_n(4)?;  // reserved
        let min_spatial_segmentation_idc = bs.get_n(12)? as u16;
        bs.skip_n(6)?;  // reserved
        let parallelism_type = bs.get_n(2)? as u8;
        bs.skip_n(6)?;  // reserved
        let chroma_format_idc = bs.get_n(2)? as u8;
        bs.skip_n(5)?;  // reserved
        let bit_depth_luma_minus8 = bs.get_n(3)? as u8;
        bs.skip_n(5)?;  // reserved
        let bit_depth_chroma_minus8 = bs.get_n(3)? as u8;
        let avg_frame_rate = bs.get_n(16)? as u16;
        let constant_frame_rate = bs.get_n(2)? as u8;
        let num_temporal_layers = bs.get_n(3)? as u8;
        let temporal_id_nested = bs.get()?;
        let length_size_minus_one = bs.get_n(2)? as u8;
        Ok(
            HEVCDecoderConfigurationRecord {
                configuration_version,
                general_profile_space,
                general_tier_flag,
                general_profile_idc,
                general_profile_compatibility_flags,
                general_constraint_indicator_flags,
                general_level_idc,
                min_spatial_segmentation_idc,
                parallelism_type,
                chroma_format_idc,
                bit_depth_luma_minus8,
                bit_depth_chroma_minus8,
                avg_frame_rate,
                constant_frame_rate,
                num_temporal_layers,
                temporal_id_nested,
                length_size_minus_one,
            },
        )
    }
}

} // verus!
