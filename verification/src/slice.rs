//! Slice headers and the picture-order-count computation.

use vstd::prelude::*;
use vstd::arithmetic::power2::{pow2, lemma2_to64};
use vstd::arithmetic::div_mod::lemma_fundamental_div_mod;
use vstd::bits::{lemma_u64_pow2_no_overflow, lemma_u64_shl_is_mul};

use crate::bitreader::{ue_ok, ue_value, BitReader};
use crate::context::Context;
use crate::errors::HevcError;
use crate::nal::{
    NALUnit, NAL_BLA_N_LP, NAL_BLA_W_LP, NAL_BLA_W_RADL, NAL_IDR_N_LP, NAL_IDR_W_RADL, NAL_RADL_N,
    NAL_RADL_R, NAL_RASL_N, NAL_RASL_R, NAL_STSA_N, NAL_TRAIL_N, NAL_TSA_N,
};
use crate::sps::SPSNAL;

verus! {

/// Whether the picture-parameter-set table of `ctx` has no active entry
/// for `id`.
pub open spec fn pps_missing(ctx: Context, id: nat) -> bool {
    id > 63 || ctx.pps_view()[id as int] is None
}

/// Whether the picture parameter set active at `id` names a sequence
/// parameter set with no active entry.
pub open spec fn sps_missing_for(ctx: Context, id: nat) -> bool {
    match ctx.pps_view()[id as int] {
        Some(pps) => pps.sps_id > 15 || ctx.sps_view()[pps.sps_id as int] is None,
        None => true,
    }
}

/// Whether `nal_type` is an intra random-access picture.
pub open spec fn is_irap_type(nal_type: u8) -> bool {
    16 <= nal_type <= 23
}

/// Whether `nal_type` is an instantaneous-decoder-refresh picture.
pub open spec fn is_idr_type(nal_type: u8) -> bool {
    nal_type == NAL_IDR_W_RADL || nal_type == NAL_IDR_N_LP
}

/// Whether `nal_type` is a broken-link-access picture.
pub open spec fn is_bla_type(nal_type: u8) -> bool {
    nal_type == NAL_BLA_W_LP || nal_type == NAL_BLA_W_RADL || nal_type == NAL_BLA_N_LP
}

/// Whether `nal_type` is one of the sub-layer non-reference kinds that
/// never update the picture-order anchor.
pub open spec fn is_sub_layer_non_ref(nal_type: u8) -> bool {
    ||| nal_type == NAL_TRAIL_N
    ||| nal_type == NAL_TSA_N
    ||| nal_type == NAL_STSA_N
    ||| nal_type == NAL_RADL_N
    ||| nal_type == NAL_RASL_N
    ||| nal_type == NAL_RADL_R
    ||| nal_type == NAL_RASL_R
}

/// The picture order count of a slice: the anchor `poc_tid0` supplies the
/// most-significant part, wrapped up or down by one period when the new
/// least-significant part crosses half a period, and forced to zero for
/// broken-link-access pictures.
pub open spec fn poc_spec(log2_max_poc_lsb: u64, poc_tid0: u64, poc_lsb: u64, nal_type: u8) -> int {
    let max = pow2(log2_max_poc_lsb as nat) as int;
    let prev_lsb = (poc_tid0 as int) % max;
    let prev_msb = poc_tid0 - prev_lsb;
    let msb = if poc_lsb < prev_lsb && prev_lsb - poc_lsb >= max / 2 {
        prev_msb + max
    } else if poc_lsb > prev_lsb && poc_lsb - prev_lsb > max / 2 {
        prev_msb - max
    } else {
        prev_msb
    };
    let msb2: int = if is_bla_type(nal_type) {
        0
    } else {
        msb
    };
    msb2 + poc_lsb
}

/// Whether `nal` carries an intra random-access picture.
pub fn is_irap_nal(nal: &NALUnit) -> (r: bool)
    ensures
        r == is_irap_type(nal.nal_type),
{
    nal.nal_type >= 16 && nal.nal_type <= 23
}

/// Whether `nal` carries an instantaneous-decoder-refresh picture.
pub fn is_idr_nal(nal: &NALUnit) -> (r: bool)
    ensures
        r == is_idr_type(nal.nal_type),
{
    nal.nal_type == NAL_IDR_W_RADL || nal.nal_type == NAL_IDR_N_LP
}

/// The picture order count of `poc_lsb` against the anchor `poc_tid0`, as
/// `poc_spec` defines it, when the result fits an unsigned count; `None`
/// when the anchor would wrap below zero or past the top of the range.
pub fn checked_compute_poc(sps: &SPSNAL, poc_tid0: u64, poc_lsb: u64, nal_type: u8) -> (r: Option<
    u64,
>)
    requires
        sps.wf(),
        poc_lsb < pow2(sps.log2_max_poc_lsb as nat),
    ensures
        ({
            let v = poc_spec(sps.log2_max_poc_lsb, poc_tid0, poc_lsb, nal_type);
            match r {
                Some(x) => 0 <= v <= u64::MAX && x == v,
                None => v < 0 || v > u64::MAX,
            }
        }),
{
    proof {
        lemma_u64_pow2_no_overflow(sps.log2_max_poc_lsb as nat);
        lemma_u64_shl_is_mul(1u64, sps.log2_max_poc_lsb);
        lemma2_to64();
    }
    let max = 1u64 << sps.log2_max_poc_lsb;
    let prev_lsb = poc_tid0 % max;
    proof {
        assert(prev_lsb <= poc_tid0) by (nonlinear_arith)
            requires
                prev_lsb == poc_tid0 % max,
                max > 0,
        ;
    }
    let prev_msb = poc_tid0 - prev_lsb;
    if nal_type == NAL_BLA_W_LP || nal_type == NAL_BLA_W_RADL || nal_type == NAL_BLA_N_LP {
        return Some(poc_lsb);
    }
    if poc_lsb < prev_lsb && prev_lsb - poc_lsb >= max / 2 {
        if prev_msb > u64::MAX - max || prev_msb + max > u64::MAX - poc_lsb {
            None
        } else {
            Some(prev_msb + max + poc_lsb)
        }
    } else if poc_lsb > prev_lsb && poc_lsb - prev_lsb > max / 2 {
        if prev_msb < max {
            proof {
                lemma_fundamental_div_mod(poc_tid0 as int, max as int);
                assert(prev_msb == (max as int) * ((poc_tid0 as int) / (max as int)));
                assert(prev_msb == 0) by (nonlinear_arith)
                    requires
                        prev_msb == (max as int) * ((poc_tid0 as int) / (max as int)),
                        prev_msb < max,
                        max > 0,
                        poc_tid0 >= 0,
                ;
            }
            None
        } else {
            Some(prev_msb - max + poc_lsb)
        }
    } else {
        if prev_msb > u64::MAX - poc_lsb {
            None
        } else {
            Some(prev_msb + poc_lsb)
        }
    }
}

/// The picture order count of `poc_lsb` against the anchor `poc_tid0`, for
/// inputs where the count stays in range.
pub fn compute_poc(sps: &SPSNAL, poc_tid0: u64, poc_lsb: u64, nal: &NALUnit) -> (r: u64)
    requires
        sps.wf(),
        poc_lsb < pow2(sps.log2_max_poc_lsb as nat),
        0 <= poc_spec(sps.log2_max_poc_lsb, poc_tid0, poc_lsb, nal.nal_type) <= u64::MAX,
    ensures
        r == poc_spec(sps.log2_max_poc_lsb, poc_tid0, poc_lsb, nal.nal_type),
{
    match checked_compute_poc(sps, poc_tid0, poc_lsb, nal.nal_type) {
        Some(v) => v,
        None => {
            proof {
                assert(false);
            }
            0
        },
    }
}

/// The number of bits needed to write a slice-segment address: the
/// smallest width whose range covers `n` values.
pub fn ceil_log2(n: u64) -> (r: usize)
    ensures
        r <= 64,
        pow2(r as nat) >= n,
        r > 0 ==> pow2((r - 1) as nat) < n,
{
    proof {
        lemma2_to64();
        vstd::arithmetic::power2::lemma2_to64_rest();
    }
    let mut k: usize = 0;
    while k < 64 && (1u64 << (k as u64)) < n
        invariant
            k <= 64,
            k > 0 ==> pow2((k - 1) as nat) < n,
        decreases 64 - k,
    {
        proof {
            lemma_u64_pow2_no_overflow(k as nat);
            lemma_u64_shl_is_mul(1u64, k as u64);
        }
        k = k + 1;
    }
    proof {
        if k < 64 {
            lemma_u64_pow2_no_overflow(k as nat);
            lemma_u64_shl_is_mul(1u64, k as u64);
        } else {
            vstd::arithmetic::power2::lemma2_to64_rest();
        }
    }
    k
}

/// A decoded slice header, up to the picture-order count; the slice body
/// is never inspected.
#[derive(Debug, Clone, Copy)]
pub struct SliceNAL {
    pub first_slice_in_pic_flag: bool,
    pub key_frame: bool,
    pub pps_id: u64,
    pub slice_type: u64,
    pub dependent_slice_segment_flag: bool,
    pub slice_segment_addr: u64,
    pub pic_order_cnt_lsb: u64,
    pub output_picture_number: u64,
}

impl SliceNAL {
    /// The zeroed slice header value.
    pub open spec fn empty_spec() -> SliceNAL {
        SliceNAL {
            first_slice_in_pic_flag: false,
            key_frame: false,
            pps_id: 0,
            slice_type: 0,
            dependent_slice_segment_flag: false,
            slice_segment_addr: 0,
            pic_order_cnt_lsb: 0,
            output_picture_number: 0,
        }
    }

    /// A zeroed slice header.
    pub fn empty() -> (r: SliceNAL)
        ensures
            r == SliceNAL::empty_spec(),
    {
        SliceNAL {
            first_slice_in_pic_flag: false,
            key_frame: false,
            pps_id: 0,
            slice_type: 0,
            dependent_slice_segment_flag: false,
            slice_segment_addr: 0,
            pic_order_cnt_lsb: 0,
            output_picture_number: 0,
        }
    }

    /// Decode a slice header, with the bit reader positioned just past the
    /// NAL header, resolving the active parameter sets through `ctx` and
    /// updating the running picture-order state: `poc` takes the slice's
    /// output picture number, and `poc_tid0` follows it for anchor slices
    /// (temporal id zero and not a sub-layer non-reference kind).  A
    /// missing picture or sequence parameter set fails with `InvalidPpsId`
    /// or `InvalidSpsId`; a dependent slice segment returns early and
    /// leaves the picture-order state unchanged.
    pub fn parse(
        bs: &mut BitReader,
        ctx: &Context,
        nal: &NALUnit,
        poc_tid0: &mut u64,
        poc: &mut u64,
    ) -> (r: Result<SliceNAL, HevcError>)
        requires
            old(bs).wf(),
            ctx.wf(),
            forall|i: int|
                0 <= i < 16 ==> (#[trigger] ctx.sps_view()[i] matches Some(s) ==> s.wf()),
        ensures
            final(bs).wf(),
            final(bs).bytes() == old(bs).bytes(),
            match r {
                Ok(slice) => {
                    &&& slice.key_frame == is_irap_type(nal.nal_type)
                    &&& slice.dependent_slice_segment_flag ==> {
                        &&& *final(poc) == *old(poc)
                        &&& *final(poc_tid0) == *old(poc_tid0)
                        &&& !slice.first_slice_in_pic_flag
                        &&& slice.slice_type == 0
                        &&& slice.pic_order_cnt_lsb == 0
                        &&& slice.output_picture_number == 0
                    }
                    &&& !slice.dependent_slice_segment_flag ==> {
                        &&& *final(poc) == slice.output_picture_number
                        &&& (is_idr_type(nal.nal_type) ==> slice.output_picture_number == 0)
                        &&& slice.pps_id <= 63
                        &&& (ctx.pps_view()[slice.pps_id as int] matches Some(pps) && pps.sps_id
                            <= 15 && (ctx.sps_view()[pps.sps_id as int] matches Some(sps) && (
                        !is_idr_type(nal.nal_type) ==> {
                            &&& slice.pic_order_cnt_lsb < pow2(sps.log2_max_poc_lsb as nat)
                            &&& slice.output_picture_number == poc_spec(
                                sps.log2_max_poc_lsb,
                                *old(poc_tid0),
                                slice.pic_order_cnt_lsb,
                                nal.nal_type,
                            )
                        })))
                        &&& *final(poc_tid0) == (if nal.temporal_id == 0 && !is_sub_layer_non_ref(
                            nal.nal_type,
                        ) {
                            *final(poc)
                        } else {
                            *old(poc_tid0)
                        })
                    }
                },
                Err(e) => {
                    &&& *final(poc) == *old(poc)
                    &&& *final(poc_tid0) == *old(poc_tid0)
                },
            },
            ({
                let b = old(bs).bytes();
                let t = old(bs).total_bits();
                let pc = old(bs).cursor() + 1 + (if is_irap_type(nal.nal_type) {
                    1int
                } else {
                    0int
                });
                &&& ((r matches Err(HevcError::InvalidPpsId)) <==> (pc <= t && ue_ok(b, pc)
                    && pps_missing(*ctx, ue_value(b, pc))))
                &&& ((r matches Err(HevcError::InvalidSpsId)) <==> (pc <= t && ue_ok(b, pc)
                    && !pps_missing(*ctx, ue_value(b, pc)) && sps_missing_for(
                    *ctx,
                    ue_value(b, pc),
                )))
            }),
    {
        let mut slice = SliceNAL::empty();
        slice.first_slice_in_pic_flag = bs.get()?;
        if is_irap_nal(nal) {
            slice.key_frame = true;
            bs.skip_n(1)?;  // no_output_of_prior_pics_flag
        }
        slice.pps_id = bs.get_ue()?;
        let pps = match ctx.pps_by_id(slice.pps_id) {
            Some(p) => p,
            None => {
                return Err(HevcError::InvalidPpsId);
            },
        };
        let sps = match ctx.sps_by_id(pps.sps_id) {
            Some(s) => s,
            None => {
                return Err(HevcError::InvalidSpsId);
            },
        };
        if !slice.first_slice_in_pic_flag {
            if pps.dependent_slice_segments_enabled_flag {
                slice.dependent_slice_segment_flag = bs.get()?;
            }
            let pic_size = sps.ctb_size;
            let slice_address_length = ceil_log2(pic_size);
            slice.slice_segment_addr = bs.get_n(slice_address_length)?;
        }
        if slice.dependent_slice_segment_flag {
            return Ok(slice);
        }
        let ghost pc = old(bs).cursor() + 1 + (if is_irap_type(nal.nal_type) {
            1int
        } else {
            0int
        });
        let mut i: u8 = 0;
        while i < pps.num_extra_slice_header_bits
            invariant
                bs.wf(),
                bs.bytes() == old(bs).bytes(),
                i <= pps.num_extra_slice_header_bits,
                pc == old(bs).cursor() + 1 + (if is_irap_type(nal.nal_type) {
                    1int
                } else {
                    0int
                }),
                !pps_missing(*ctx, ue_value(old(bs).bytes(), pc)),
                !sps_missing_for(*ctx, ue_value(old(bs).bytes(), pc)),
            decreases pps.num_extra_slice_header_bits - i,
        {
            bs.skip_n(1)?;  // slice_reserved_undetermined_flag
            i = i + 1;
        }
        slice.slice_type = bs.get_ue()?;
        if pps.output_flag_present_flag {
            bs.skip_n(1)?;
        }
        if sps.separate_colour_plane_flag {
            bs.skip_n(2)?;
        }
        if !is_idr_nal(nal) {
            slice.pic_order_cnt_lsb = bs.get_n(sps.log2_max_poc_lsb as usize)?;
            let v = match checked_compute_poc(sps, *poc_tid0, slice.pic_order_cnt_lsb, nal.nal_type)
                {
                Some(v) => v,
                None => {
                    return Err(HevcError::FieldOutOfRange);
                },
            };
            slice.output_picture_number = v;
        } else {
            slice.output_picture_number = 0;
        }
        *poc = slice.output_picture_number;
        if nal.temporal_id == 0 && nal.nal_type != NAL_TRAIL_N && nal.nal_type != NAL_TSA_N
            && nal.nal_type != NAL_STSA_N && nal.nal_type != NAL_RADL_N && nal.nal_type
            != NAL_RASL_N && nal.nal_type != NAL_RADL_R && nal.nal_type != NAL_RASL_R {
            *poc_tid0 = *poc;
        }
        Ok(slice)
    }
}

} // verus!
