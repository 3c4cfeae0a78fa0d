//! The short-term reference picture sets of an SPS or slice header.

use vstd::prelude::*;

use crate::bitreader::{bit_at, ue_end, ue_value, BitReader};
use crate::errors::HevcError;
use crate::sps::SPSNAL;
use crate::veccmp::{eq_vec_bool, eq_vec_u64};

verus! {

/// One short_term_ref_pic_set: either predicted from an earlier set or an
/// explicit list of negative and positive picture-order deltas.
#[derive(Debug, Clone)]
pub struct ShortTermRPS {
    pub inter_ref_pic_set_prediction_flag: bool,
    pub delta_idx: u64,
    pub delta_rps_sign: bool,
    pub abs_delta_rps: u64,
    pub used_by_curr_pic_flags: Vec<bool>,
    pub use_delta_flags: Vec<bool>,
    pub num_delta_pocs: u64,
    pub num_negative_pics: u64,
    pub num_positive_pics: u64,
    pub delta_poc_s0: Vec<u64>,
    pub used_by_curr_pic_s0_flags: Vec<bool>,
    pub delta_poc_s1: Vec<u64>,
    pub used_by_curr_pic_s1_flags: Vec<bool>,
}

/// Field-by-field equality of two short-term reference picture sets.
pub open spec fn rps_eq_spec(a: ShortTermRPS, b: ShortTermRPS) -> bool {
    &&& a.inter_ref_pic_set_prediction_flag == b.inter_ref_pic_set_prediction_flag
    &&& a.delta_idx == b.delta_idx
    &&& a.delta_rps_sign == b.delta_rps_sign
    &&& a.abs_delta_rps == b.abs_delta_rps
    &&& a.used_by_curr_pic_flags@ == b.used_by_curr_pic_flags@
    &&& a.use_delta_flags@ == b.use_delta_flags@
    &&& a.num_delta_pocs == b.num_delta_pocs
    &&& a.num_negative_pics == b.num_negative_pics
    &&& a.num_positive_pics == b.num_positive_pics
    &&& a.delta_poc_s0@ == b.delta_poc_s0@
    &&& a.used_by_curr_pic_s0_flags@ == b.used_by_curr_pic_s0_flags@
    &&& a.delta_poc_s1@ == b.delta_poc_s1@
    &&& a.used_by_curr_pic_s1_flags@ == b.used_by_curr_pic_s1_flags@
}

impl ShortTermRPS {
    /// The two prediction-flag tables walk in step and the explicit
    /// picture counts are small enough to add.
    pub open spec fn wf(self) -> bool {
        &&& self.used_by_curr_pic_flags@.len() == self.use_delta_flags@.len()
        &&& self.num_negative_pics <= 0xFFFFFFFE
        &&& self.num_positive_pics <= 0xFFFFFFFE
    }

    /// An empty reference picture set.
    pub fn empty() -> (r: ShortTermRPS)
        ensures
            r.wf(),
            r.inter_ref_pic_set_prediction_flag == false,
            r.delta_idx == 0,
            r.used_by_curr_pic_flags@.len() == 0,
            r.use_delta_flags@.len() == 0,
            r.num_negative_pics == 0,
            r.num_positive_pics == 0,
            r.delta_poc_s0@.len() == 0,
            r.used_by_curr_pic_s0_flags@.len() == 0,
            r.delta_poc_s1@.len() == 0,
            r.used_by_curr_pic_s1_flags@.len() == 0,
    {
        ShortTermRPS {
            inter_ref_pic_set_prediction_flag: false,
            delta_idx: 0,
            delta_rps_sign: false,
            abs_delta_rps: 0,
            used_by_curr_pic_flags: Vec::new(),
            use_delta_flags: Vec::new(),
            num_delta_pocs: 0,
            num_negative_pics: 0,
            num_positive_pics: 0,
            delta_poc_s0: Vec::new(),
            used_by_curr_pic_s0_flags: Vec::new(),
            delta_poc_s1: Vec::new(),
            used_by_curr_pic_s1_flags: Vec::new(),
        }
    }

    /// Field-by-field equality with another set.
    pub fn content_eq(&self, other: &ShortTermRPS) -> (r: bool)
        ensures
            r == rps_eq_spec(*self, *other),
    {
        self.inter_ref_pic_set_prediction_flag == other.inter_ref_pic_set_prediction_flag
            && self.delta_idx == other.delta_idx && self.delta_rps_sign == other.delta_rps_sign
            && self.abs_delta_rps == other.abs_delta_rps && eq_vec_bool(
            &self.used_by_curr_pic_flags,
            &other.used_by_curr_pic_flags,
        ) && eq_vec_bool(&self.use_delta_flags, &other.use_delta_flags) && self.num_delta_pocs
            == other.num_delta_pocs && self.num_negative_pics == other.num_negative_pics
            && self.num_positive_pics == other.num_positive_pics && eq_vec_u64(
            &self.delta_poc_s0,
            &other.delta_poc_s0,
        ) && eq_vec_bool(&self.used_by_curr_pic_s0_flags, &other.used_by_curr_pic_s0_flags)
            && eq_vec_u64(&self.delta_poc_s1, &other.delta_poc_s1) && eq_vec_bool(
            &self.used_by_curr_pic_s1_flags,
            &other.used_by_curr_pic_s1_flags,
        )
    }

    /// Decode the short_term_ref_pic_set at index `st_rps_idx` of
    /// `nb_st_rps` sets.  A set after the first may be predicted from an
    /// earlier set of the same SPS; otherwise the negative and positive
    /// delta lists are explicit.  A predictor reference pointing before the
    /// first set fails with `FieldOutOfRange`.
    pub fn parse(
        bs: &mut BitReader,
        sps: &SPSNAL,
        st_rps_idx: usize,
        nb_st_rps: u64,
        is_slice_header: bool,
    ) -> (r: Result<ShortTermRPS, HevcError>)
        requires
            old(bs).wf(),
            st_rps_idx <= sps.short_term_ref_pic_sets@.len(),
            forall|j: int|
                0 <= j < sps.short_term_ref_pic_sets@.len()
                    ==> (#[trigger] sps.short_term_ref_pic_sets@[j]).wf(),
        ensures
            final(bs).wf(),
            final(bs).bytes() == old(bs).bytes(),
            r matches Ok(rps) ==> ({
                let b = old(bs).bytes();
                let c = old(bs).cursor();
                let flagged = st_rps_idx > 0 && nb_st_rps > 0;
                let base = c + (if flagged {
                    1int
                } else {
                    0
                });
                &&& rps.wf()
                &&& rps.inter_ref_pic_set_prediction_flag == (flagged && bit_at(b, c))
                &&& (!rps.inter_ref_pic_set_prediction_flag ==> {
                    &&& rps.num_negative_pics == ue_value(b, base)
                    &&& rps.num_positive_pics == ue_value(b, ue_end(b, base))
                    &&& rps.delta_poc_s0@.len() == rps.num_negative_pics
                    &&& rps.used_by_curr_pic_s0_flags@.len() == rps.num_negative_pics
                    &&& rps.delta_poc_s1@.len() == rps.num_positive_pics
                    &&& rps.used_by_curr_pic_s1_flags@.len() == rps.num_positive_pics
                    &&& forall|k: int|
                        0 <= k < rps.delta_poc_s0@.len() ==> #[trigger] rps.delta_poc_s0@[k] >= 1
                    &&& forall|k: int|
                        0 <= k < rps.delta_poc_s1@.len() ==> #[trigger] rps.delta_poc_s1@[k] >= 1
                })
                &&& (rps.inter_ref_pic_set_prediction_flag ==> {
                    &&& rps.abs_delta_rps >= 1
                    &&& ((st_rps_idx as u64 == nb_st_rps || is_slice_header) ==> rps.delta_idx
                        == ue_value(b, c + 1))
                    &&& (!(st_rps_idx as u64 == nb_st_rps || is_slice_header) ==> rps.delta_idx
                        == 0)
                    &&& rps.delta_idx + 1 <= st_rps_idx
                    &&& rps.used_by_curr_pic_flags@.len() >= 1
                })
            }),
    {
        let mut rps = ShortTermRPS::empty();
        if st_rps_idx > 0 && nb_st_rps > 0 {
            rps.inter_ref_pic_set_prediction_flag = bs.get()?;
        }
        if rps.inter_ref_pic_set_prediction_flag {
            if st_rps_idx as u64 == nb_st_rps || is_slice_header {
                rps.delta_idx = bs.get_ue()?;
            }
            rps.delta_rps_sign = bs.get()?;
            rps.abs_delta_rps = bs.get_ue()? + 1;
            if rps.delta_idx + 1 > st_rps_idx as u64 {
                return Err(HevcError::FieldOutOfRange);
            }
            let ref_rps_idx: usize = st_rps_idx - (rps.delta_idx as usize + 1);
            let ref_rps = &sps.short_term_ref_pic_sets[ref_rps_idx];
            let mut num_delta_pocs: usize = 0;
            if ref_rps.inter_ref_pic_set_prediction_flag {
                let mut i: usize = 0;
                while i < ref_rps.used_by_curr_pic_flags.len()
                    invariant
                        i <= ref_rps.used_by_curr_pic_flags@.len(),
                        num_delta_pocs <= i,
                        ref_rps.wf(),
                    decreases ref_rps.used_by_curr_pic_flags@.len() - i,
                {
                    if ref_rps.used_by_curr_pic_flags[i] || ref_rps.use_delta_flags[i] {
                        num_delta_pocs = num_delta_pocs + 1;
                    }
                    i = i + 1;
                }
            } else {
                let total = ref_rps.num_negative_pics + ref_rps.num_positive_pics;
                if total >= usize::MAX as u64 {
                    return Err(HevcError::FieldOutOfRange);
                }
                num_delta_pocs = total as usize;
            }
            if num_delta_pocs == usize::MAX {
                return Err(HevcError::FieldOutOfRange);
            }
            let ghost rps1 = rps;
            let mut i: usize = 0;
            while i <= num_delta_pocs
                invariant
                    bs.wf(),
                    bs.bytes() == old(bs).bytes(),
                    i <= num_delta_pocs + 1,
                    num_delta_pocs < usize::MAX,
                    rps.used_by_curr_pic_flags@.len() == i,
                    rps.use_delta_flags@.len() == i,
                    rps.num_negative_pics == 0,
                    rps.num_positive_pics == 0,
                    rps.inter_ref_pic_set_prediction_flag
                        == rps1.inter_ref_pic_set_prediction_flag,
                    rps.delta_idx == rps1.delta_idx,
                    rps.abs_delta_rps == rps1.abs_delta_rps,
                decreases num_delta_pocs + 1 - i,
            {
                let used = bs.get()?;
                rps.used_by_curr_pic_flags.push(used);
                if !used {
                    let b = bs.get()?;
                    rps.use_delta_flags.push(b);
                } else {
                    rps.use_delta_flags.push(true);
                }
                i = i + 1;
            }
        } else {
            rps.num_negative_pics = bs.get_ue()?;
            rps.num_positive_pics = bs.get_ue()?;
            let ghost rps0 = rps;
            let mut i: u64 = 0;
            while i < rps.num_negative_pics
                invariant
                    bs.wf(),
                    bs.bytes() == old(bs).bytes(),
                    i <= rps.num_negative_pics,
                    rps.num_negative_pics <= 0xFFFFFFFE,
                    rps.num_positive_pics <= 0xFFFFFFFE,
                    rps.inter_ref_pic_set_prediction_flag
                        == rps0.inter_ref_pic_set_prediction_flag,
                    rps.num_negative_pics == rps0.num_negative_pics,
                    rps.num_positive_pics == rps0.num_positive_pics,
                    rps.delta_poc_s0@.len() == i,
                    rps.used_by_curr_pic_s0_flags@.len() == i,
                    rps.delta_poc_s1@.len() == 0,
                    rps.used_by_curr_pic_s1_flags@.len() == 0,
                    forall|k: int|
                        0 <= k < rps.delta_poc_s0@.len() ==> #[trigger] rps.delta_poc_s0@[k] >= 1,
                    rps.used_by_curr_pic_flags@.len() == rps.use_delta_flags@.len(),
                decreases rps.num_negative_pics - i,
            {
                let d = bs.get_ue()? + 1;
                rps.delta_poc_s0.push(d);
                let b = bs.get()?;
                rps.used_by_curr_pic_s0_flags.push(b);
                i = i + 1;
            }
            let mut i: u64 = 0;
            while i < rps.num_positive_pics
                invariant
                    bs.wf(),
                    bs.bytes() == old(bs).bytes(),
                    i <= rps.num_positive_pics,
                    rps.num_negative_pics <= 0xFFFFFFFE,
                    rps.num_positive_pics <= 0xFFFFFFFE,
                    rps.inter_ref_pic_set_prediction_flag
                        == rps0.inter_ref_pic_set_prediction_flag,
                    rps.num_negative_pics == rps0.num_negative_pics,
                    rps.num_positive_pics == rps0.num_positive_pics,
                    rps.delta_poc_s0@.len() == rps0.num_negative_pics,
                    rps.used_by_curr_pic_s0_flags@.len() == rps0.num_negative_pics,
                    rps.delta_poc_s1@.len() == i,
                    rps.used_by_curr_pic_s1_flags@.len() == i,
                    forall|k: int|
                        0 <= k < rps.delta_poc_s0@.len() ==> #[trigger] rps.delta_poc_s0@[k] >= 1,
                    forall|k: int|
                        0 <= k < rps.delta_poc_s1@.len() ==> #[trigger] rps.delta_poc_s1@[k] >= 1,
                    rps.used_by_curr_pic_flags@.len() == rps.use_delta_flags@.len(),
                decreases rps.num_positive_pics - i,
            {
                let d = bs.get_ue()? + 1;
                rps.delta_poc_s1.push(d);
                let b = bs.get()?;
                rps.used_by_curr_pic_s1_flags.push(b);
                i = i + 1;
            }
        }
        Ok(rps)
    }
}

} // verus!
