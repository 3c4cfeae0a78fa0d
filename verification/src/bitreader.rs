//! Bit-level reader over an in-memory buffer.
//!
//! Bits are consumed most-significant first.  Besides fixed-width reads the
//! reader decodes the unsigned (`ue(v)`) and signed (`se(v)`) exponential
//! Golomb codes of the HEVC syntax.

use vstd::prelude::*;
use vstd::arithmetic::power2::{pow2, lemma_pow2_adds, lemma_pow2_pos, lemma2_to64, lemma2_to64_rest};
use vstd::bits::{lemma_u64_pow2_no_overflow, lemma_u64_shl_is_mul};

use crate::errors::HevcError;

verus! {

/// The bit of `bytes` at bit index `i`, most-significant bit of each byte
/// first.
pub open spec fn bit_at(bytes: Seq<u8>, i: int) -> bool
    recommends
        0 <= i < bytes.len() * 8,
{
    (bytes[i / 8] >> ((7 - i % 8) as u8)) & 1 == 1
}

/// The unsigned value of the `n` bits of `bytes` starting at bit index
/// `pos`, most-significant first.
pub open spec fn bits_value(bytes: Seq<u8>, pos: int, n: nat) -> nat
    decreases n,
{
    if n == 0 {
        0
    } else {
        bits_value(bytes, pos, (n - 1) as nat) * 2 + (if bit_at(bytes, pos + n - 1) {
            1nat
        } else {
            0nat
        })
    }
}

/// The number of zero bits in `bytes` from bit index `pos` up to the first
/// one bit, or up to the end of the buffer.
pub open spec fn leading_zero_bits(bytes: Seq<u8>, pos: int) -> nat
    recommends
        0 <= pos <= bytes.len() * 8,
    decreases bytes.len() * 8 - pos,
{
    if pos < 0 || pos >= bytes.len() * 8 {
        0
    } else if bit_at(bytes, pos) {
        0
    } else {
        1 + leading_zero_bits(bytes, pos + 1)
    }
}

/// Whether a `ue(v)` decode at bit `pos` succeeds: the run of zeros is at
/// most 31, the separating one bit exists, and the suffix fits the buffer.
pub open spec fn ue_ok(bytes: Seq<u8>, pos: int) -> bool {
    let k = leading_zero_bits(bytes, pos);
    &&& k <= 31
    &&& pos + k < bytes.len() * 8
    &&& pos + 2 * k + 1 <= bytes.len() * 8
}

/// The value of the `ue(v)` code at bit `pos`: with `k` leading zeros,
/// `2^k - 1` plus the `k` suffix bits.
pub open spec fn ue_value(bytes: Seq<u8>, pos: int) -> nat {
    let k = leading_zero_bits(bytes, pos);
    (pow2(k) - 1 + bits_value(bytes, pos + k + 1, k)) as nat
}

/// The bit position just past the `ue(v)` code at bit `pos`.
pub open spec fn ue_end(bytes: Seq<u8>, pos: int) -> int {
    pos + 2 * leading_zero_bits(bytes, pos) + 1
}

/// The error of a failed `ue(v)` decode at bit `pos`.
pub open spec fn ue_err(bytes: Seq<u8>, pos: int) -> HevcError {
    if leading_zero_bits(bytes, pos) >= 32 {
        HevcError::FieldOutOfRange
    } else {
        HevcError::BitstreamUnderrun
    }
}

/// The mapping from an exp-Golomb code number to the signed `se(v)` value:
/// odd codes map to positive values, even codes to zero and negatives.
pub open spec fn se_of(code: nat) -> int {
    if code % 2 == 1 {
        (code + 1) as int / 2
    } else {
        -((code / 2) as int)
    }
}

proof fn lemma_bits_value_bound(bytes: Seq<u8>, pos: int, n: nat)
    ensures
        bits_value(bytes, pos, n) < pow2(n),
    decreases n,
{
    if n == 0 {
        lemma_pow2_pos(0);
        assert(pow2(0) == 1) by {
            lemma2_to64();
        }
    } else {
        lemma_bits_value_bound(bytes, pos, (n - 1) as nat);
        lemma_pow2_adds((n - 1) as nat, 1);
        assert(pow2(1) == 2) by {
            lemma2_to64();
        }
    }
}

proof fn lemma_lz_run(bytes: Seq<u8>, pos: int, k: nat)
    requires
        0 <= pos,
        pos + k <= bytes.len() * 8,
        forall|j: int| pos <= j < pos + k ==> !bit_at(bytes, j),
    ensures
        leading_zero_bits(bytes, pos) == k + leading_zero_bits(bytes, pos + k),
    decreases k,
{
    if k > 0 {
        lemma_lz_run(bytes, pos + 1, (k - 1) as nat);
    }
}

/// Reader over a byte buffer with a cursor at bit granularity.
pub struct BitReader {
    data: Vec<u8>,
    pos: usize,
}

impl BitReader {
    /// The bytes the reader walks over.
    pub closed spec fn bytes(self) -> Seq<u8> {
        self.data@
    }

    /// The cursor, as a bit index.
    pub closed spec fn cursor(self) -> int {
        self.pos as int
    }

    /// Total number of bits in the buffer.
    pub open spec fn total_bits(self) -> int {
        self.bytes().len() * 8int
    }

    /// The cursor is inside the buffer and the bit count fits the machine.
    pub closed spec fn wf(self) -> bool {
        &&& self.pos <= self.data@.len() * 8
        &&& self.data@.len() * 8 <= usize::MAX
    }

    /// A well-formed reader's cursor sits inside its buffer.
    pub proof fn lemma_cursor_in_bounds(self)
        requires
            self.wf(),
        ensures
            0 <= self.cursor() <= self.total_bits(),
    {
    }

    /// Make a reader positioned at the first bit of `data`.
    pub fn new(data: Vec<u8>) -> (r: BitReader)
        requires
            data@.len() * 8 <= usize::MAX,
        ensures
            r.wf(),
            r.bytes() == data@,
            r.cursor() == 0,
    {
        BitReader { data, pos: 0 }
    }

    /// Current bit position.
    pub fn position(&self) -> (r: usize)
        ensures
            r == self.cursor(),
    {
        self.pos
    }

    /// Number of bits left to read.
    pub fn available(&self) -> (r: usize)
        requires
            self.wf(),
        ensures
            r == self.total_bits() - self.cursor(),
    {
        self.data.len() * 8 - self.pos
    }

    /// Read the bit at bit index `i` without moving the cursor.
    fn peek_at(&self, i: usize) -> (b: bool)
        requires
            self.wf(),
            i < self.total_bits(),
        ensures
            b == bit_at(self.bytes(), i as int),
    {
        let byte = self.data[i / 8];
        let sh: u8 = (7 - (i % 8)) as u8;
        ((byte >> sh) & 1) == 1
    }

    /// Read a single bit.  Fails with `BitstreamUnderrun` exactly when the
    /// buffer is exhausted.
    pub fn get(&mut self) -> (r: Result<bool, HevcError>)
        requires
            old(self).wf(),
        ensures
            final(self).wf(),
            final(self).bytes() == old(self).bytes(),
            match r {
                Ok(b) => {
                    &&& old(self).cursor() < old(self).total_bits()
                    &&& b == bit_at(old(self).bytes(), old(self).cursor())
                    &&& final(self).cursor() == old(self).cursor() + 1
                },
                Err(e) => {
                    &&& old(self).cursor() == old(self).total_bits()
                    &&& e == HevcError::BitstreamUnderrun
                    &&& final(self).cursor() == old(self).cursor()
                },
            },
    {
        if self.pos >= self.data.len() * 8 {
            return Err(HevcError::BitstreamUnderrun);
        }
        let byte = self.data[self.pos / 8];
        let sh: u8 = (7 - (self.pos % 8)) as u8;
        let b = ((byte >> sh) & 1) == 1;
        self.pos = self.pos + 1;
        Ok(b)
    }

    /// Read `n` bits (`n <= 64`) as an unsigned integer, most-significant
    /// bit first.  Fails with `BitstreamUnderrun` exactly when fewer than
    /// `n` bits remain.
    pub fn get_n(&mut self, n: usize) -> (r: Result<u64, HevcError>)
        requires
            old(self).wf(),
            n <= 64,
        ensures
            final(self).wf(),
            final(self).bytes() == old(self).bytes(),
            match r {
                Ok(v) => {
                    &&& old(self).cursor() + n <= old(self).total_bits()
                    &&& v == bits_value(old(self).bytes(), old(self).cursor(), n as nat)
                    &&& v < pow2(n as nat)
                    &&& final(self).cursor() == old(self).cursor() + n
                },
                Err(e) => {
                    &&& old(self).cursor() + n > old(self).total_bits()
                    &&& e == HevcError::BitstreamUnderrun
                    &&& final(self).cursor() == old(self).cursor()
                },
            },
    {
        if n > self.available() {
            return Err(HevcError::BitstreamUnderrun);
        }
        let ghost start = self.pos as int;
        proof {
            lemma2_to64();
        }
        let mut v: u64 = 0;
        let mut i: usize = 0;
        while i < n
            invariant
                self.wf(),
                self.bytes() == old(self).bytes(),
                i <= n,
                n <= 64,
                self.cursor() == start + i,
                start + n <= self.total_bits(),
                v == bits_value(self.bytes(), start, i as nat),
                v < pow2(i as nat),
            decreases n - i,
        {
            proof {
                lemma_pow2_adds(i as nat, 1);
                lemma2_to64();
                lemma2_to64_rest();
                if i < 63 {
                    lemma_u64_pow2_no_overflow((i + 1) as nat);
                }
            }
            let b = match self.get() {
                Ok(b) => b,
                Err(_) => {
                    proof {
                        assert(false);
                    }
                    false
                },
            };
            v = v * 2 + (if b {
                1
            } else {
                0
            });
            i = i + 1;
        }
        proof {
            lemma_bits_value_bound(self.bytes(), start, n as nat);
        }
        Ok(v)
    }

    /// Advance the cursor by `n` bits without interpreting them.  Fails
    /// with `BitstreamUnderrun` exactly when fewer than `n` bits remain.
    pub fn skip_n(&mut self, n: u64) -> (r: Result<(), HevcError>)
        requires
            old(self).wf(),
        ensures
            final(self).wf(),
            final(self).bytes() == old(self).bytes(),
            match r {
                Ok(()) => {
                    &&& old(self).cursor() + n <= old(self).total_bits()
                    &&& final(self).cursor() == old(self).cursor() + n
                },
                Err(e) => {
                    &&& old(self).cursor() + n > old(self).total_bits()
                    &&& e == HevcError::BitstreamUnderrun
                    &&& final(self).cursor() == old(self).cursor()
                },
            },
    {
        let avail = self.available();
        if n > avail as u64 {
            return Err(HevcError::BitstreamUnderrun);
        }
        self.pos = self.pos + n as usize;
        Ok(())
    }

    /// Decode an unsigned exponential Golomb code: with `k` leading zero
    /// bits, the value is `2^k - 1` plus the following `k` bits.  A run of
    /// 32 or more zeros fails with `FieldOutOfRange`; a code running past
    /// the buffer fails with `BitstreamUnderrun`.
    pub fn get_ue(&mut self) -> (r: Result<u64, HevcError>)
        requires
            old(self).wf(),
        ensures
            final(self).wf(),
            final(self).bytes() == old(self).bytes(),
            match r {
                Ok(v) => {
                    &&& ue_ok(old(self).bytes(), old(self).cursor())
                    &&& v == ue_value(old(self).bytes(), old(self).cursor())
                    &&& v < pow2(32)
                    &&& v <= 0xFFFFFFFE
                    &&& final(self).cursor() == ue_end(old(self).bytes(), old(self).cursor())
                },
                Err(e) => {
                    &&& !ue_ok(old(self).bytes(), old(self).cursor())
                    &&& e == ue_err(old(self).bytes(), old(self).cursor())
                },
            },
    {
        let ghost start = self.pos as int;
        let total = self.data.len() * 8;
        let mut k: usize = 0;
        while k < 32 && self.pos + k < total && !self.peek_at(self.pos + k)
            invariant
                self.wf(),
                self.cursor() == start,
                total == self.total_bits(),
                k <= 32,
                start + k <= total,
                forall|j: int| start <= j < start + k ==> !bit_at(self.bytes(), j),
            decreases total - k,
        {
            k = k + 1;
        }
        proof {
            lemma_lz_run(self.bytes(), start, k as nat);
        }
        if k == 32 {
            return Err(HevcError::FieldOutOfRange);
        }
        if self.pos + k >= total {
            proof {
                assert(leading_zero_bits(self.bytes(), start + k) == 0);
            }
            return Err(HevcError::BitstreamUnderrun);
        }
        proof {
            assert(leading_zero_bits(self.bytes(), start + k) == 0);
            assert(leading_zero_bits(self.bytes(), start) == k);
        }
        self.pos = self.pos + k + 1;
        let suffix = if k == 0 {
            0
        } else {
            match self.get_n(k) {
                Ok(s) => s,
                Err(e) => {
                    return Err(e);
                },
            }
        };
        proof {
            lemma_u64_pow2_no_overflow(k as nat);
            lemma_bits_value_bound(self.bytes(), start + k + 1, k as nat);
            lemma2_to64();
            if k < 31 {
                vstd::arithmetic::power2::lemma_pow2_strictly_increases(k as nat, 31);
            }
            assert(pow2(k as nat) <= 0x80000000);
            lemma_u64_shl_is_mul(1u64, k as u64);
        }
        let base = (1u64 << (k as u64)) - 1;
        Ok(base + suffix)
    }

    /// Decode a signed exponential Golomb code: the code number maps to
    /// `0, 1, -1, 2, -2, ...` in order.
    pub fn get_se(&mut self) -> (r: Result<i64, HevcError>)
        requires
            old(self).wf(),
        ensures
            final(self).wf(),
            final(self).bytes() == old(self).bytes(),
            match r {
                Ok(v) => {
                    &&& ue_ok(old(self).bytes(), old(self).cursor())
                    &&& v == se_of(ue_value(old(self).bytes(), old(self).cursor()))
                    &&& -0x7FFFFFFF <= v <= 0x7FFFFFFF
                    &&& final(self).cursor() == ue_end(old(self).bytes(), old(self).cursor())
                },
                Err(e) => {
                    &&& !ue_ok(old(self).bytes(), old(self).cursor())
                    &&& e == ue_err(old(self).bytes(), old(self).cursor())
                },
            },
    {
        let code = self.get_ue()?;
        proof {
            assert(pow2(32) == 0x100000000) by {
                lemma2_to64();
            }
        }
        if code % 2 == 1 {
            Ok(((code + 1) / 2) as i64)
        } else {
            Ok(-((code / 2) as i64))
        }
    }
}

} // verus!
