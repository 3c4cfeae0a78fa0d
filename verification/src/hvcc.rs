//! Byte-level access to an HEVC decoder configuration record and the
//! parameter sets embedded in its NAL unit arrays.

use vstd::prelude::*;

use crate::bitreader::BitReader;
use crate::context::Context;
use crate::errors::HevcError;
use crate::escape::clear_start_code_emulation_prevention_3_byte;
use crate::nal::{NAL_PPS, NAL_SPS, NAL_VPS};

verus! {

/// Failure of the configuration-record reader.
#[derive(Debug, Clone, Copy, PartialEq, Eq, Structural)]
pub enum HvccError {
    /// The record is shorter than a field or an interior length requires.
    NotEnoughData { expected: usize, actual: usize },
    /// The record used a version number other than one, indicating an
    /// incompatible change of the format.
    UnsupportedConfigurationVersion(u8),
    /// A parameter-set array held something unusable.
    ParamSet(ParamSetError),
}

/// Failure while walking one NAL unit array of the record.
#[derive(Debug, Clone, Copy, PartialEq, Eq, Structural)]
pub enum ParamSetError {
    /// The top bit of an embedded NAL header was set.
    ForbiddenZeroBit,
    /// An array element did not match the type its array header promised.
    IncorrectNalType { expected: u8, actual: u8 },
    /// An interior length field runs past the end of the record.
    NotEnoughData { expected: usize, actual: usize },
    /// An embedded parameter set did not decode.
    Parse(HevcError),
}

/// An HEVC decoder configuration record over its raw bytes.
pub struct HevcDecoderConfigurationRecord {
    data: Vec<u8>,
}

/// Walker over one length-prefixed parameter-set array of a record.
pub struct ParamSetIter {
    data: Vec<u8>,
    pos: usize,
    unit_type: u8,
}

impl ParamSetIter {
    /// The bytes the walker reads.
    pub closed spec fn data_view(self) -> Seq<u8> {
        self.data@
    }

    /// The walker's byte position.
    pub closed spec fn pos_spec(self) -> int {
        self.pos as int
    }

    /// The NAL unit type every element must carry.
    pub closed spec fn unit_type_spec(self) -> u8 {
        self.unit_type
    }

    /// A walker over `buf` expecting elements of type `unit_type`.
    pub fn new(buf: Vec<u8>, unit_type: u8) -> (r: ParamSetIter)
        ensures
            r.data_view() == buf@,
            r.pos_spec() == 0,
            r.unit_type_spec() == unit_type,
    {
        ParamSetIter { data: buf, pos: 0, unit_type }
    }

    /// The next parameter set: a 16-bit length, a NAL header whose
    /// forbidden bit must be clear and whose type must match, then the
    /// payload.  `None` once the buffer is exhausted.
    pub fn next(&mut self) -> (r: Option<Result<Vec<u8>, ParamSetError>>)
        requires
            old(self).pos_spec() <= old(self).data_view().len(),
        ensures
            final(self).data_view() == old(self).data_view(),
            final(self).unit_type_spec() == old(self).unit_type_spec(),
            final(self).pos_spec() >= old(self).pos_spec(),
            r is None <==> old(self).pos_spec() >= old(self).data_view().len(),
            r matches Some(x) ==> (x matches Ok(set) ==> set@.len() <= 0xFFFF),
            final(self).pos_spec() <= final(self).data_view().len(),
            ({
                let d = old(self).data_view();
                let p = old(self).pos_spec();
                let hdr = if p + 2 < d.len() {
                    d[p + 2]
                } else {
                    0
                };
                let len = if p + 1 < d.len() {
                    256 * (d[p] as int) + d[p + 1]
                } else {
                    0
                };
                &&& (r matches Some(x) ==> (x matches Ok(set) ==> {
                    &&& p + 4 <= d.len()
                    &&& hdr < 0x80
                    &&& ((hdr as u8) >> 1u8) & 0x3F == old(self).unit_type_spec()
                    &&& len <= d.len() - (p + 2)
                    &&& set@ == d.subrange(p + 2, p + 2 + len)
                    &&& final(self).pos_spec() == p + 2 + len
                }))
                &&& (r matches Some(x) ==> (x matches Err(ParamSetError::ForbiddenZeroBit) ==> (p
                    + 4 <= d.len() && hdr >= 0x80)))
                &&& (r matches Some(x) ==> (x matches Err(
                    ParamSetError::IncorrectNalType { expected, actual },
                ) ==> {
                    &&& p + 4 <= d.len()
                    &&& hdr < 0x80
                    &&& expected == old(self).unit_type_spec()
                    &&& actual == ((hdr as u8) >> 1u8) & 0x3F
                    &&& actual != expected
                }))
            }),
    {
        if self.pos >= self.data.len() {
            return None;
        }
        if self.data.len() - self.pos < 4 {
            let r = Some(
                Err(
                    ParamSetError::NotEnoughData {
                        expected: self.pos.saturating_add(4),
                        actual: self.data.len(),
                    },
                ),
            );
            self.pos = self.data.len();
            return r;
        }
        let len: usize = (self.data[self.pos] as usize) * 256 + (self.data[self.pos + 1] as usize);
        let hdr_hi = self.data[self.pos + 2];
        if hdr_hi >= 0x80 {
            self.pos = self.data.len();
            return Some(Err(ParamSetError::ForbiddenZeroBit));
        }
        let actual_type = (hdr_hi >> 1u8) & 0x3F;
        if actual_type != self.unit_type {
            self.pos = self.data.len();
            return Some(
                Err(
                    ParamSetError::IncorrectNalType {
                        expected: self.unit_type,
                        actual: actual_type,
                    },
                ),
            );
        }
        if len > self.data.len() - (self.pos + 2) {
            let r = Some(
                Err(
                    ParamSetError::NotEnoughData {
                        expected: (self.pos + 2).saturating_add(len),
                        actual: self.data.len(),
                    },
                ),
            );
            self.pos = self.data.len();
            return r;
        }
        let mut set: Vec<u8> = Vec::new();
        let start = self.pos + 2;
        let mut i: usize = 0;
        while i < len
            invariant
                start + len <= self.data.len(),
                i <= len,
                len <= 0xFFFF,
                set@ == self.data@.subrange(start as int, start + i),
            decreases len - i,
        {
            let b = self.data[start + i];
            set.push(b);
            i = i + 1;
            proof {
                assert(set@ =~= self.data@.subrange(start as int, start + i));
            }
        }
        proof {
            assert(set@.len() == len);
        }
        self.pos = start + len;
        Some(Ok(set))
    }
}

impl HevcDecoderConfigurationRecord {
    /// The raw bytes of the record.
    pub closed spec fn data_view(self) -> Seq<u8> {
        self.data@
    }

    /// The record holds at least the 23 fixed bytes and uses version one.
    pub open spec fn wf(self) -> bool {
        &&& self.data_view().len() >= 23
        &&& self.data_view()[0] == 1
    }

    /// Take ownership of a record's bytes.  A record shorter than its 23
    /// fixed bytes fails with `NotEnoughData`; one with a version other
    /// than one fails with `UnsupportedConfigurationVersion`.
    #[allow(clippy::should_implement_trait)]
    pub fn try_from(data: Vec<u8>) -> (r: Result<HevcDecoderConfigurationRecord, HvccError>)
        ensures
            match r {
                Ok(rec) => rec.wf() && rec.data_view() == data@,
                Err(e) => {
                    ||| (data@.len() < 23 && e == (HvccError::NotEnoughData {
                        expected: 23,
                        actual: data@.len() as usize,
                    }))
                    ||| (data@.len() >= 23 && data@[0] != 1 && e
                        == HvccError::UnsupportedConfigurationVersion(data@[0]))
                },
            },
    {
        let rec = HevcDecoderConfigurationRecord { data };
        rec.ck(23)?;
        if rec.data[0] != 1 {
            return Err(HvccError::UnsupportedConfigurationVersion(rec.data[0]));
        }
        Ok(rec)
    }

    /// Whether at least `len` bytes are present.
    fn ck(&self, len: usize) -> (r: Result<(), HvccError>)
        ensures
            match r {
                Ok(()) => self.data_view().len() >= len,
                Err(e) => self.data_view().len() < len && e == (HvccError::NotEnoughData {
                    expected: len,
                    actual: self.data_view().len() as usize,
                }),
            },
    {
        if self.data.len() < len {
            Err(HvccError::NotEnoughData { expected: len, actual: self.data.len() })
        } else {
            Ok(())
        }
    }

    /// The record's version byte.
    pub fn configuration_version(&self) -> (r: u8)
        requires
            self.wf(),
        ensures
            r == self.data_view()[0],
    {
        self.data[0]
    }

    /// Number of NAL unit arrays that follow the fixed fields.
    pub fn num_of_arrays(&self) -> (r: usize)
        requires
            self.wf(),
        ensures
            r == self.data_view()[22],
    {
        self.data[22] as usize
    }

    /// The five-bit general profile indicator.
    pub fn general_profile_idc(&self) -> (r: u8)
        requires
            self.wf(),
        ensures
            r == self.data_view()[1] & 0x1F,
    {
        self.data[1] & 0x1F
    }

    /// The 32-bit general profile compatibility field, big-endian over its
    /// four bytes.
    pub fn general_profile_compatibility_flags(&self) -> (r: u32)
        requires
            self.wf(),
        ensures
            r == ((self.data_view()[2] as u32) << 24u32) | ((self.data_view()[3] as u32) << 16u32)
                | ((self.data_view()[4] as u32) << 8u32) | (self.data_view()[5] as u32),
    {
        ((self.data[2] as u32) << 24u32) | ((self.data[3] as u32) << 16u32) | ((self.data[4] as u32)
            << 8u32) | (self.data[5] as u32)
    }

    /// The general level indicator.
    pub fn general_level_idc(&self) -> (r: u8)
        requires
            self.wf(),
        ensures
            r == self.data_view()[12],
    {
        self.data[12]
    }

    /// Number of bytes, minus one, of each NAL unit length prefix.
    pub fn length_size_minus_one(&self) -> (r: u8)
        requires
            self.wf(),
        ensures
            r == self.data_view()[21] & 0x03,
            r <= 3,
    {
        let b = self.data[21];
        proof {
            assert(b & 0x03 <= 3) by (bit_vector);
        }
        b & 0x03
    }

    /// The parameter sets of the first NAL unit array whose type matches
    /// `unit_type`, in order; an empty list when no array matches.  Every
    /// returned payload is at most the 16-bit length its prefix can name.
    pub fn parameter_sets(&self, unit_type: u8) -> (r: Result<Vec<Vec<u8>>, HvccError>)
        requires
            self.wf(),
        ensures
            r matches Ok(sets) ==> forall|i: int|
                0 <= i < sets@.len() ==> {
                    &&& (#[trigger] sets@[i])@.len() <= 0xFFFF
                    &&& (sets@[i]@.len() >= 1 ==> ((sets@[i]@[0] as u8) >> 1u8) & 0x3F
                        == unit_type)
                },
    {
        let num_arrays = self.num_of_arrays();
        let mut pos: usize = 23;
        let mut array: usize = 0;
        while array < num_arrays
            invariant
                self.wf(),
                array <= num_arrays,
                pos <= self.data.len(),
            decreases num_arrays - array,
        {
            if self.data.len() - pos < 3 {
                return Err(
                    HvccError::NotEnoughData {
                        expected: pos.saturating_add(3),
                        actual: self.data.len(),
                    },
                );
            }
            let nal_type = self.data[pos] & 0x3F;
            let num_nalus: usize = (self.data[pos + 1] as usize) * 256 + (self.data[pos
                + 2] as usize);
            pos = pos + 3;
            if nal_type == unit_type {
                let mut rest: Vec<u8> = Vec::new();
                let mut i: usize = pos;
                while i < self.data.len()
                    invariant
                        pos <= i <= self.data.len(),
                        rest@.len() == i - pos,
                    decreases self.data@.len() - i,
                {
                    let b = self.data[i];
                    rest.push(b);
                    i = i + 1;
                }
                let mut iter = ParamSetIter::new(rest, unit_type);
                let mut sets: Vec<Vec<u8>> = Vec::new();
                let mut n: usize = 0;
                while n < num_nalus
                    invariant
                        n <= num_nalus,
                        iter.pos_spec() <= iter.data_view().len(),
                        iter.unit_type_spec() == unit_type,
                        forall|k: int|
                            0 <= k < sets@.len() ==> {
                                &&& (#[trigger] sets@[k])@.len() <= 0xFFFF
                                &&& (sets@[k]@.len() >= 1 ==> ((sets@[k]@[0] as u8) >> 1u8)
                                    & 0x3F == unit_type)
                            },
                    decreases num_nalus - n,
                {
                    match iter.next() {
                        None => {
                            break ;
                        },
                        Some(Ok(set)) => {
                            sets.push(set);
                        },
                        Some(Err(e)) => {
                            return Err(HvccError::ParamSet(e));
                        },
                    }
                    n = n + 1;
                }
                return Ok(sets);
            }
            // skip this array's elements
            let mut n: usize = 0;
            while n < num_nalus
                invariant
                    self.wf(),
                    n <= num_nalus,
                    pos <= self.data.len(),
                decreases num_nalus - n,
            {
                if self.data.len() - pos < 2 {
                    return Err(
                        HvccError::NotEnoughData {
                            expected: pos.saturating_add(2),
                            actual: self.data.len(),
                        },
                    );
                }
                let nal_len: usize = (self.data[pos] as usize) * 256 + (self.data[pos
                    + 1] as usize);
                if nal_len > self.data.len() - (pos + 2) {
                    return Err(
                        HvccError::NotEnoughData {
                            expected: (pos + 2).saturating_add(nal_len),
                            actual: self.data.len(),
                        },
                    );
                }
                pos = pos + 2 + nal_len;
                n = n + 1;
            }
            array = array + 1;
        }
        Ok(Vec::new())
    }

    /// Build a parser context from the record: the video, sequence and
    /// picture parameter sets of its arrays are unescaped, decoded and
    /// installed in fresh tables.
    pub fn create_context(&self) -> (r: Result<Context, HvccError>)
        requires
            self.wf(),
        ensures
            r matches Ok(ctx) ==> {
                &&& ctx.wf()
                &&& forall|i: int|
                    0 <= i < 16 ==> (#[trigger] ctx.sps_view()[i] matches Some(s) ==> s.wf())
            },
    {
        let mut ctx = Context::new();
        let vps_sets = self.parameter_sets(NAL_VPS)?;
        let mut i: usize = 0;
        while i < vps_sets.len()
            invariant
                i <= vps_sets@.len(),
                forall|k: int| 0 <= k < vps_sets@.len() ==> (#[trigger] vps_sets@[k])@.len() <= 0xFFFF,
                ctx.wf(),
                forall|t: int| 0 <= t < 16 ==> (#[trigger] ctx.sps_view()[t] matches Some(s) ==> s.wf()),
            decreases vps_sets@.len() - i,
        {
            let payload = clear_start_code_emulation_prevention_3_byte(vps_sets[i].as_slice());
            let mut bs = BitReader::new(payload);
            if let Err(e) = bs.skip_n(16) {
                return Err(HvccError::ParamSet(ParamSetError::Parse(e)));
            }
            let vps = match crate::vps::VPSNAL::parse(&mut bs) {
                Ok(v) => v,
                Err(e) => {
                    return Err(HvccError::ParamSet(ParamSetError::Parse(e)));
                },
            };
            ctx.put_vid_param_set(vps);
            i = i + 1;
        }
        let sps_sets = self.parameter_sets(NAL_SPS)?;
        let mut i: usize = 0;
        while i < sps_sets.len()
            invariant
                i <= sps_sets@.len(),
                forall|k: int| 0 <= k < sps_sets@.len() ==> (#[trigger] sps_sets@[k])@.len() <= 0xFFFF,
                ctx.wf(),
                forall|t: int| 0 <= t < 16 ==> (#[trigger] ctx.sps_view()[t] matches Some(s) ==> s.wf()),
            decreases sps_sets@.len() - i,
        {
            let payload = clear_start_code_emulation_prevention_3_byte(sps_sets[i].as_slice());
            let mut bs = BitReader::new(payload);
            if let Err(e) = bs.skip_n(16) {
                return Err(HvccError::ParamSet(ParamSetError::Parse(e)));
            }
            let sps = match crate::sps::SPSNAL::parse(&mut bs) {
                Ok(v) => v,
                Err(e) => {
                    return Err(HvccError::ParamSet(ParamSetError::Parse(e)));
                },
            };
            if sps.sps_id > 15 {
                return Err(HvccError::ParamSet(ParamSetError::Parse(HevcError::FieldOutOfRange)));
            }
            ctx.put_seq_param_set(sps);
            i = i + 1;
        }
        let pps_sets = self.parameter_sets(NAL_PPS)?;
        let mut i: usize = 0;
        while i < pps_sets.len()
            invariant
                i <= pps_sets@.len(),
                forall|k: int| 0 <= k < pps_sets@.len() ==> (#[trigger] pps_sets@[k])@.len() <= 0xFFFF,
                ctx.wf(),
                forall|t: int| 0 <= t < 16 ==> (#[trigger] ctx.sps_view()[t] matches Some(s) ==> s.wf()),
            decreases pps_sets@.len() - i,
        {
            let payload = clear_start_code_emulation_prevention_3_byte(pps_sets[i].as_slice());
            let mut bs = BitReader::new(payload);
            if let Err(e) = bs.skip_n(16) {
                return Err(HvccError::ParamSet(ParamSetError::Parse(e)));
            }
            let pps = match crate::pps::PPSNAL::parse(&mut bs) {
                Ok(v) => v,
                Err(e) => {
                    return Err(HvccError::ParamSet(ParamSetError::Parse(e)));
                },
            };
            if pps.pps_id > 63 {
                return Err(HvccError::ParamSet(ParamSetError::Parse(HevcError::FieldOutOfRange)));
            }
            ctx.put_pic_param_set(pps);
            i = i + 1;
        }
        Ok(ctx)
    }
}

} // verus!
