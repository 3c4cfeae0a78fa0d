//! The profile_tier_level structure shared by VPS and SPS.

use vstd::prelude::*;

use crate::bitreader::{bit_at, bits_value, BitReader};
use crate::errors::HevcError;

verus! {

/// Decoded profile_tier_level: the general profile, tier and level fields
/// and the per-sub-layer repetitions of the same shape.
#[derive(Debug, Clone)]
pub struct ProfileTierLevel {
    pub general_profile_space: u8,
    pub general_tier_flag: bool,
    pub general_profile_idc: u8,
    pub general_profile_compatibility_flag: Vec<bool>,
    pub general_progressive_source_flag: bool,
    pub general_interlaced_source_flag: bool,
    pub general_non_packed_constraint_flag: bool,
    pub general_frame_only_constraint_flag: bool,
    pub general_level_idc: u8,
    pub sub_layer_profile_present_flag: Vec<bool>,
    pub sub_layer_level_present_flag: Vec<bool>,
    pub sub_layer_profile_space: Vec<u8>,
    pub sub_layer_tier_flag: Vec<bool>,
    pub sub_layer_profile_idc: Vec<u8>,
    pub sub_layer_profile_compatibility_flag: Vec<bool>,
    pub sub_layer_progressive_source_flag: Vec<bool>,
    pub sub_layer_interlaced_source_flag: Vec<bool>,
    pub sub_layer_non_packed_constraint_flag: Vec<bool>,
    pub sub_layer_frame_only_constraint_flag: Vec<bool>,
    pub sub_layer_level_idc: Vec<u8>,
}

/// Bit index just past the flag pairs and reserved padding of a
/// profile_tier_level starting at bit `c` with `msl` sub-layers: 96
/// general bits, one flag pair per sub-layer below the top, and reserved
/// pairs padding the entries to eight when any lower sub-layer exists.
pub open spec fn ptl_pad_end(c: int, msl: int) -> int {
    c + 96 + 2 * (msl - 1) + (if msl - 1 > 0 {
        2 * (8 - (msl - 1))
    } else {
        0
    })
}

/// Bit index just past the detail blocks of the first `i` sub-layers:
/// each carries 88 profile bits when its profile-present flag is set and
/// an 8-bit level when its level-present flag is set.
pub open spec fn ptl_detail_end(b: Seq<u8>, c: int, msl: int, i: int) -> int
    decreases i,
{
    if i <= 0 {
        ptl_pad_end(c, msl)
    } else {
        ptl_detail_end(b, c, msl, i - 1) + (if bit_at(b, c + 96 + 2 * (i - 1)) {
            88int
        } else {
            0
        }) + (if bit_at(b, c + 97 + 2 * (i - 1)) {
            8int
        } else {
            0
        })
    }
}

/// Bit index just past a whole profile_tier_level starting at bit `c`
/// with `msl` sub-layers.
pub open spec fn ptl_end(b: Seq<u8>, c: int, msl: int) -> int {
    ptl_detail_end(b, c, msl, msl - 1)
}

proof fn lemma_ptl_detail_mono(b: Seq<u8>, c: int, msl: int, i: int, j: int)
    requires
        i <= j,
    ensures
        ptl_detail_end(b, c, msl, i) <= ptl_detail_end(b, c, msl, j),
    decreases j - i,
{
    if i < j {
        lemma_ptl_detail_mono(b, c, msl, i, j - 1);
    }
}

/// Field-by-field equality of two profile_tier_level records.
pub open spec fn ptl_eq_spec(a: ProfileTierLevel, b: ProfileTierLevel) -> bool {
    &&& a.general_profile_space == b.general_profile_space
    &&& a.general_tier_flag == b.general_tier_flag
    &&& a.general_profile_idc == b.general_profile_idc
    &&& a.general_profile_compatibility_flag@ == b.general_profile_compatibility_flag@
    &&& a.general_progressive_source_flag == b.general_progressive_source_flag
    &&& a.general_interlaced_source_flag == b.general_interlaced_source_flag
    &&& a.general_non_packed_constraint_flag == b.general_non_packed_constraint_flag
    &&& a.general_frame_only_constraint_flag == b.general_frame_only_constraint_flag
    &&& a.general_level_idc == b.general_level_idc
    &&& a.sub_layer_profile_present_flag@ == b.sub_layer_profile_present_flag@
    &&& a.sub_layer_level_present_flag@ == b.sub_layer_level_present_flag@
    &&& a.sub_layer_profile_space@ == b.sub_layer_profile_space@
    &&& a.sub_layer_tier_flag@ == b.sub_layer_tier_flag@
    &&& a.sub_layer_profile_idc@ == b.sub_layer_profile_idc@
    &&& a.sub_layer_profile_compatibility_flag@ == b.sub_layer_profile_compatibility_flag@
    &&& a.sub_layer_progressive_source_flag@ == b.sub_layer_progressive_source_flag@
    &&& a.sub_layer_interlaced_source_flag@ == b.sub_layer_interlaced_source_flag@
    &&& a.sub_layer_non_packed_constraint_flag@ == b.sub_layer_non_packed_constraint_flag@
    &&& a.sub_layer_frame_only_constraint_flag@ == b.sub_layer_frame_only_constraint_flag@
    &&& a.sub_layer_level_idc@ == b.sub_layer_level_idc@
}

impl ProfileTierLevel {
    /// All vector fields are still empty, as in a freshly made record.
    pub open spec fn is_fresh(self) -> bool {
        &&& self.general_profile_compatibility_flag@.len() == 0
        &&& self.sub_layer_profile_present_flag@.len() == 0
        &&& self.sub_layer_level_present_flag@.len() == 0
        &&& self.sub_layer_profile_space@.len() == 0
        &&& self.sub_layer_tier_flag@.len() == 0
        &&& self.sub_layer_profile_idc@.len() == 0
        &&& self.sub_layer_profile_compatibility_flag@.len() == 0
        &&& self.sub_layer_progressive_source_flag@.len() == 0
        &&& self.sub_layer_interlaced_source_flag@.len() == 0
        &&& self.sub_layer_non_packed_constraint_flag@.len() == 0
        &&& self.sub_layer_frame_only_constraint_flag@.len() == 0
        &&& self.sub_layer_level_idc@.len() == 0
    }

    /// A record with zeroed general fields and empty sub-layer tables.
    pub fn empty() -> (r: ProfileTierLevel)
        ensures
            r.is_fresh(),
    {
        ProfileTierLevel {
            general_profile_space: 0,
            general_tier_flag: false,
            general_profile_idc: 0,
            general_profile_compatibility_flag: Vec::new(),
            general_progressive_source_flag: false,
            general_interlaced_source_flag: false,
            general_non_packed_constraint_flag: false,
            general_frame_only_constraint_flag: false,
            general_level_idc: 0,
            sub_layer_profile_present_flag: Vec::new(),
            sub_layer_level_present_flag: Vec::new(),
            sub_layer_profile_space: Vec::new(),
            sub_layer_tier_flag: Vec::new(),
            sub_layer_profile_idc: Vec::new(),
            sub_layer_profile_compatibility_flag: Vec::new(),
            sub_layer_progressive_source_flag: Vec::new(),
            sub_layer_interlaced_source_flag: Vec::new(),
            sub_layer_non_packed_constraint_flag: Vec::new(),
            sub_layer_frame_only_constraint_flag: Vec::new(),
            sub_layer_level_idc: Vec::new(),
        }
    }

    /// Field-by-field equality with another record.
    pub fn content_eq(&self, other: &ProfileTierLevel) -> (r: bool)
        ensures
            r == ptl_eq_spec(*self, *other),
    {
        self.general_profile_space == other.general_profile_space
            && self.general_tier_flag == other.general_tier_flag
            && self.general_profile_idc == other.general_profile_idc
            && crate::veccmp::eq_vec_bool(
            &self.general_profile_compatibility_flag,
            &other.general_profile_compatibility_flag,
        ) && self.general_progressive_source_flag == other.general_progressive_source_flag
            && self.general_interlaced_source_flag == other.general_interlaced_source_flag
            && self.general_non_packed_constraint_flag == other.general_non_packed_constraint_flag
            && self.general_frame_only_constraint_flag == other.general_frame_only_constraint_flag
            && self.general_level_idc == other.general_level_idc && crate::veccmp::eq_vec_bool(
            &self.sub_layer_profile_present_flag,
            &other.sub_layer_profile_present_flag,
        ) && crate::veccmp::eq_vec_bool(
            &self.sub_layer_level_present_flag,
            &other.sub_layer_level_present_flag,
        ) && crate::veccmp::eq_vec_u8(&self.sub_layer_profile_space, &other.sub_layer_profile_space)
            && crate::veccmp::eq_vec_bool(&self.sub_layer_tier_flag, &other.sub_layer_tier_flag)
            && crate::veccmp::eq_vec_u8(&self.sub_layer_profile_idc, &other.sub_layer_profile_idc)
            && crate::veccmp::eq_vec_bool(
            &self.sub_layer_profile_compatibility_flag,
            &other.sub_layer_profile_compatibility_flag,
        ) && crate::veccmp::eq_vec_bool(
            &self.sub_layer_progressive_source_flag,
            &other.sub_layer_progressive_source_flag,
        ) && crate::veccmp::eq_vec_bool(
            &self.sub_layer_interlaced_source_flag,
            &other.sub_layer_interlaced_source_flag,
        ) && crate::veccmp::eq_vec_bool(
            &self.sub_layer_non_packed_constraint_flag,
            &other.sub_layer_non_packed_constraint_flag,
        ) && crate::veccmp::eq_vec_bool(
            &self.sub_layer_frame_only_constraint_flag,
            &other.sub_layer_frame_only_constraint_flag,
        ) && crate::veccmp::eq_vec_u8(&self.sub_layer_level_idc, &other.sub_layer_level_idc)
    }

    /// Decode a profile_tier_level with `max_sub_layers` sub-layers into
    /// this freshly made record.  Success is exactly the pattern fitting
    /// the buffer: the 96 general bits, one flag pair per lower sub-layer
    /// padded with reserved pairs to eight entries, then per lower
    /// sub-layer 88 profile bits when its profile flag is set and an
    /// 8-bit level when its level flag is set (the level defaults to 1
    /// otherwise).  On success every general field and flag is the value
    /// of its bit range and the cursor sits just past the structure.
    #[verifier::rlimit(100)]
    pub fn parse(&mut self, bs: &mut BitReader, max_sub_layers: u8) -> (r: Result<
        (),
        HevcError,
    >)
        requires
            old(self).is_fresh(),
            old(bs).wf(),
            1 <= max_sub_layers <= 8,
        ensures
            final(bs).wf(),
            final(bs).bytes() == old(bs).bytes(),
            r matches Err(e) ==> e == HevcError::BitstreamUnderrun,
            r is Ok <==> ptl_end(old(bs).bytes(), old(bs).cursor(), max_sub_layers as int) <= old(
                bs,
            ).total_bits(),
            r is Ok ==> ({
                let b = old(bs).bytes();
                let c = old(bs).cursor();
                let msl = max_sub_layers as int;
                &&& final(bs).cursor() == ptl_end(b, c, msl)
                &&& final(self).general_profile_space == bits_value(b, c, 2)
                &&& final(self).general_tier_flag == bit_at(b, c + 2)
                &&& final(self).general_profile_idc == bits_value(b, c + 3, 5)
                &&& final(self).general_profile_compatibility_flag@.len() == 32
                &&& forall|j: int|
                    0 <= j < 32 ==> #[trigger] final(self).general_profile_compatibility_flag@[j]
                        == bit_at(b, c + 8 + j)
                &&& final(self).general_progressive_source_flag == bit_at(b, c + 40)
                &&& final(self).general_interlaced_source_flag == bit_at(b, c + 41)
                &&& final(self).general_non_packed_constraint_flag == bit_at(b, c + 42)
                &&& final(self).general_frame_only_constraint_flag == bit_at(b, c + 43)
                &&& final(self).general_level_idc == bits_value(b, c + 88, 8)
                &&& final(self).sub_layer_profile_present_flag@.len() == msl - 1
                &&& final(self).sub_layer_level_present_flag@.len() == msl - 1
                &&& final(self).sub_layer_level_idc@.len() == msl - 1
                &&& forall|i: int|
                    0 <= i < msl - 1 ==> #[trigger] final(self).sub_layer_profile_present_flag@[i]
                        == bit_at(b, c + 96 + 2 * i)
                &&& forall|i: int|
                    0 <= i < msl - 1 ==> #[trigger] final(self).sub_layer_level_present_flag@[i]
                        == bit_at(b, c + 97 + 2 * i)
                &&& forall|i: int|
                    0 <= i < msl - 1 ==> #[trigger] final(self).sub_layer_level_idc@[i] == (
                    if bit_at(b, c + 97 + 2 * i) {
                        bits_value(
                            b,
                            ptl_detail_end(b, c, msl, i) + (if bit_at(b, c + 96 + 2 * i) {
                                88int
                            } else {
                                0
                            }),
                            8,
                        ) as u8
                    } else {
                        1u8
                    })
            }),
    {
        proof {
            vstd::arithmetic::power2::lemma2_to64();
        }
        let ghost b = old(bs).bytes();
        let ghost c = old(bs).cursor();
        let ghost msl = max_sub_layers as int;
        proof {
            lemma_ptl_detail_mono(b, c, msl, 0, msl - 1);
        }
        self.general_profile_space = bs.get_n(2)? as u8;
        self.general_tier_flag = bs.get()?;
        self.general_profile_idc = bs.get_n(5)? as u8;
        let mut i: usize = 0;
        while i < 32
            invariant
                bs.wf(),
                bs.bytes() == old(bs).bytes(),
                b == old(bs).bytes(),
                c == old(bs).cursor(),
                1 <= msl <= 8,
                msl == max_sub_layers as int,
                ptl_pad_end(c, msl) <= ptl_end(b, c, msl),
                i <= 32,
                bs.cursor() == c + 8 + i,
                self.general_profile_space == bits_value(b, c, 2),
                self.general_tier_flag == bit_at(b, c + 2),
                self.general_profile_idc == bits_value(b, c + 3, 5),
                self.general_profile_compatibility_flag@.len() == i,
                forall|j: int|
                    0 <= j < i ==> #[trigger] self.general_profile_compatibility_flag@[j]
                        == bit_at(b, c + 8 + j),
                self.sub_layer_profile_present_flag@.len() == 0,
                self.sub_layer_level_present_flag@.len() == 0,
                self.sub_layer_level_idc@.len() == 0,
            decreases 32 - i,
        {
            let bit = bs.get()?;
            self.general_profile_compatibility_flag.push(bit);
            i = i + 1;
        }
        self.general_progressive_source_flag = bs.get()?;
        self.general_interlaced_source_flag = bs.get()?;
        self.general_non_packed_constraint_flag = bs.get()?;
        self.general_frame_only_constraint_flag = bs.get()?;
        bs.skip_n(32)?;
        bs.skip_n(12)?;
        self.general_level_idc = bs.get_n(8)? as u8;
        let max_sub_layers_minus1 = max_sub_layers - 1;
        let mut i: usize = 0;
        while i < max_sub_layers_minus1 as usize
            invariant
                bs.wf(),
                bs.bytes() == old(bs).bytes(),
                b == old(bs).bytes(),
                c == old(bs).cursor(),
                1 <= msl <= 8,
                msl == max_sub_layers as int,
                max_sub_layers_minus1 == msl - 1,
                ptl_pad_end(c, msl) <= ptl_end(b, c, msl),
                i <= max_sub_layers_minus1 as usize,
                bs.cursor() == c + 96 + 2 * i,
                self.general_profile_space == bits_value(b, c, 2),
                self.general_tier_flag == bit_at(b, c + 2),
                self.general_profile_idc == bits_value(b, c + 3, 5),
                self.general_profile_compatibility_flag@.len() == 32,
                forall|j: int|
                    0 <= j < 32 ==> #[trigger] self.general_profile_compatibility_flag@[j]
                        == bit_at(b, c + 8 + j),
                self.general_progressive_source_flag == bit_at(b, c + 40),
                self.general_interlaced_source_flag == bit_at(b, c + 41),
                self.general_non_packed_constraint_flag == bit_at(b, c + 42),
                self.general_frame_only_constraint_flag == bit_at(b, c + 43),
                self.general_level_idc == bits_value(b, c + 88, 8),
                self.sub_layer_profile_present_flag@.len() == i,
                self.sub_layer_level_present_flag@.len() == i,
                forall|t: int|
                    0 <= t < i ==> #[trigger] self.sub_layer_profile_present_flag@[t] == bit_at(
                        b,
                        c + 96 + 2 * t,
                    ),
                forall|t: int|
                    0 <= t < i ==> #[trigger] self.sub_layer_level_present_flag@[t] == bit_at(
                        b,
                        c + 97 + 2 * t,
                    ),
                self.sub_layer_level_idc@.len() == 0,
            decreases max_sub_layers_minus1 as usize - i,
        {
            let bit = bs.get()?;
            self.sub_layer_profile_present_flag.push(bit);
            let bit = bs.get()?;
            self.sub_layer_level_present_flag.push(bit);
            i = i + 1;
        }
        if max_sub_layers_minus1 > 0 {
            let mut i: usize = max_sub_layers_minus1 as usize;
            while i < 8
                invariant
                    bs.wf(),
                    bs.bytes() == old(bs).bytes(),
                    b == old(bs).bytes(),
                    c == old(bs).cursor(),
                    1 <= msl <= 8,
                    msl == max_sub_layers as int,
                    max_sub_layers_minus1 == msl - 1,
                    max_sub_layers_minus1 > 0,
                    ptl_pad_end(c, msl) <= ptl_end(b, c, msl),
                    max_sub_layers_minus1 as usize <= i <= 8,
                    bs.cursor() == c + 96 + 2 * (msl - 1) + 2 * (i - (msl - 1)),
                decreases 8 - i,
            {
                bs.skip_n(2)?;
                i = i + 1;
            }
        }
        proof {
            assert(bs.cursor() == ptl_pad_end(c, msl));
        }
        let mut i: usize = 0;
        while i < max_sub_layers_minus1 as usize
            invariant
                bs.wf(),
                bs.bytes() == old(bs).bytes(),
                b == old(bs).bytes(),
                c == old(bs).cursor(),
                1 <= msl <= 8,
                msl == max_sub_layers as int,
                max_sub_layers_minus1 == msl - 1,
                i <= max_sub_layers_minus1 as usize,
                bs.cursor() == ptl_detail_end(b, c, msl, i as int),
                ptl_detail_end(b, c, msl, i as int) <= ptl_end(b, c, msl),
                self.general_profile_space == bits_value(b, c, 2),
                self.general_tier_flag == bit_at(b, c + 2),
                self.general_profile_idc == bits_value(b, c + 3, 5),
                self.general_profile_compatibility_flag@.len() == 32,
                forall|j: int|
                    0 <= j < 32 ==> #[trigger] self.general_profile_compatibility_flag@[j]
                        == bit_at(b, c + 8 + j),
                self.general_progressive_source_flag == bit_at(b, c + 40),
                self.general_interlaced_source_flag == bit_at(b, c + 41),
                self.general_non_packed_constraint_flag == bit_at(b, c + 42),
                self.general_frame_only_constraint_flag == bit_at(b, c + 43),
                self.general_level_idc == bits_value(b, c + 88, 8),
                self.sub_layer_profile_present_flag@.len() == msl - 1,
                self.sub_layer_level_present_flag@.len() == msl - 1,
                forall|t: int|
                    0 <= t < msl - 1 ==> #[trigger] self.sub_layer_profile_present_flag@[t]
                        == bit_at(b, c + 96 + 2 * t),
                forall|t: int|
                    0 <= t < msl - 1 ==> #[trigger] self.sub_layer_level_present_flag@[t]
                        == bit_at(b, c + 97 + 2 * t),
                self.sub_layer_level_idc@.len() == i,
                forall|t: int|
                    0 <= t < i ==> #[trigger] self.sub_layer_level_idc@[t] == (if bit_at(
                        b,
                        c + 97 + 2 * t,
                    ) {
                        bits_value(
                            b,
                            ptl_detail_end(b, c, msl, t) + (if bit_at(b, c + 96 + 2 * t) {
                                88int
                            } else {
                                0
                            }),
                            8,
                        ) as u8
                    } else {
                        1u8
                    }),
            decreases max_sub_layers_minus1 as usize - i,
        {
            proof {
                vstd::arithmetic::power2::lemma2_to64();
                lemma_ptl_detail_mono(b, c, msl, i + 1, msl - 1);
            }
            let ghost dstart = ptl_detail_end(b, c, msl, i as int);
            if self.sub_layer_profile_present_flag[i] {
                let v = bs.get_n(2)? as u8;
                self.sub_layer_profile_space.push(v);
                let bit = bs.get()?;
                self.sub_layer_tier_flag.push(bit);
                let v = bs.get_n(5)? as u8;
                self.sub_layer_profile_idc.push(v);
                let mut j: usize = 0;
                while j < 32
                    invariant
                        bs.wf(),
                        bs.bytes() == old(bs).bytes(),
                        b == old(bs).bytes(),
                        c == old(bs).cursor(),
                        msl == max_sub_layers as int,
                        j <= 32,
                        bs.cursor() == dstart + 8 + j,
                        dstart + 88 <= ptl_end(b, c, msl),
                        self.general_profile_space == bits_value(b, c, 2),
                        self.general_tier_flag == bit_at(b, c + 2),
                        self.general_profile_idc == bits_value(b, c + 3, 5),
                        self.general_profile_compatibility_flag@.len() == 32,
                        forall|t: int|
                            0 <= t < 32 ==> #[trigger] self.general_profile_compatibility_flag@[t]
                                == bit_at(b, c + 8 + t),
                        self.general_progressive_source_flag == bit_at(b, c + 40),
                        self.general_interlaced_source_flag == bit_at(b, c + 41),
                        self.general_non_packed_constraint_flag == bit_at(b, c + 42),
                        self.general_frame_only_constraint_flag == bit_at(b, c + 43),
                        self.general_level_idc == bits_value(b, c + 88, 8),
                        self.sub_layer_profile_present_flag@.len() == msl - 1,
                        self.sub_layer_level_present_flag@.len() == msl - 1,
                        forall|t: int|
                            0 <= t < msl - 1 ==> #[trigger] self.sub_layer_profile_present_flag@[t]
                                == bit_at(b, c + 96 + 2 * t),
                        forall|t: int|
                            0 <= t < msl - 1 ==> #[trigger] self.sub_layer_level_present_flag@[t]
                                == bit_at(b, c + 97 + 2 * t),
                        self.sub_layer_level_idc@.len() == i,
                        forall|t: int|
                            0 <= t < i ==> #[trigger] self.sub_layer_level_idc@[t] == (if bit_at(
                                b,
                                c + 97 + 2 * t,
                            ) {
                                bits_value(
                                    b,
                                    ptl_detail_end(b, c, msl, t) + (if bit_at(
                                        b,
                                        c + 96 + 2 * t,
                                    ) {
                                        88int
                                    } else {
                                        0
                                    }),
                                    8,
                                ) as u8
                            } else {
                                1u8
                            }),
                    decreases 32 - j,
                {
                    let bit = bs.get()?;
                    self.sub_layer_profile_compatibility_flag.push(bit);
                    j = j + 1;
                }
                let bit = bs.get()?;
                self.sub_layer_progressive_source_flag.push(bit);
                let bit = bs.get()?;
                self.sub_layer_interlaced_source_flag.push(bit);
                let bit = bs.get()?;
                self.sub_layer_non_packed_constraint_flag.push(bit);
                let bit = bs.get()?;
                self.sub_layer_frame_only_constraint_flag.push(bit);
                bs.skip_n(32)?;
                bs.skip_n(12)?;
            }
            if self.sub_layer_level_present_flag[i] {
                let v = bs.get_n(8)? as u8;
                self.sub_layer_level_idc.push(v);
            } else {
                self.sub_layer_level_idc.push(1);
            }
            i = i + 1;
        }
        proof {
            bs.lemma_cursor_in_bounds();
        }
        Ok(())
    }
}

} // verus!