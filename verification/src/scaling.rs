//! Traversal of scaling_list_data.
//!
//! The scaling lists themselves are not kept; the decoder only consumes
//! exactly the bits the structure occupies so that the syntax that follows
//! stays aligned.  The spec functions below walk the same grammar over the
//! raw bits.

use vstd::prelude::*;

use crate::bitreader::{bit_at, ue_end, ue_ok, BitReader};
use crate::errors::HevcError;

verus! {

/// Bit index just past `n` exp-Golomb codes starting at bit `p`.
pub open spec fn ue_chain_end(b: Seq<u8>, p: int, n: nat) -> int
    decreases n,
{
    if n == 0 {
        p
    } else {
        ue_chain_end(b, ue_end(b, p), (n - 1) as nat)
    }
}

/// Whether `n` exp-Golomb codes decode from bit `p`.
pub open spec fn ue_chain_ok(b: Seq<u8>, p: int, n: nat) -> bool
    decreases n,
{
    n == 0 || (ue_ok(b, p) && ue_chain_ok(b, ue_end(b, p), (n - 1) as nat))
}

/// Appending one more code to a chain ends one code past the chain's end.
pub proof fn lemma_ue_chain_snoc(b: Seq<u8>, p: int, n: nat)
    ensures
        ue_chain_end(b, p, n + 1) == ue_end(b, ue_chain_end(b, p, n)),
    decreases n,
{
    if n == 0 {
        assert(ue_chain_end(b, p, 1) == ue_chain_end(b, ue_end(b, p), 0));
    } else {
        lemma_ue_chain_snoc(b, ue_end(b, p), (n - 1) as nat);
        assert(ue_chain_end(b, p, n + 1) == ue_chain_end(b, ue_end(b, p), n));
        assert(ue_chain_end(b, p, n) == ue_chain_end(b, ue_end(b, p), (n - 1) as nat));
    }
}

/// Number of delta coefficients of one scaling list of block-size class
/// `size_id`: sixteen for the smallest blocks, sixty-four otherwise.
pub open spec fn scaling_coef_count(size_id: int) -> nat {
    if size_id == 0 {
        16
    } else {
        64
    }
}

/// Bit index just past one scaling-list element at bit `p`: a predictor
/// reference code when the prediction-mode bit is clear, otherwise an
/// optional DC code (for the larger block sizes) and the delta
/// coefficients.
pub open spec fn scaling_elem_end(b: Seq<u8>, p: int, size_id: int) -> int {
    if !bit_at(b, p) {
        ue_end(b, p + 1)
    } else {
        let q = if size_id > 1 {
            ue_end(b, p + 1)
        } else {
            p + 1
        };
        ue_chain_end(b, q, scaling_coef_count(size_id))
    }
}

/// Whether one scaling-list element decodes at bit `p`.
pub open spec fn scaling_elem_ok(b: Seq<u8>, p: int, size_id: int) -> bool {
    &&& p + 1 <= b.len() * 8
    &&& if !bit_at(b, p) {
        ue_ok(b, p + 1)
    } else {
        let q = if size_id > 1 {
            ue_end(b, p + 1)
        } else {
            p + 1
        };
        &&& (size_id > 1 ==> ue_ok(b, p + 1))
        &&& ue_chain_ok(b, q, scaling_coef_count(size_id))
    }
}

/// Bit index just past the scaling-list elements from position
/// (`size_id`, `matrix_id`) on: six matrices per block-size class,
/// stepping by three for the largest class.
pub open spec fn scaling_from_end(b: Seq<u8>, p: int, size_id: int, matrix_id: int) -> int
    decreases 4 - size_id, 8 - matrix_id,
    when 0 <= size_id && 0 <= matrix_id <= 8
{
    if size_id >= 4 {
        p
    } else if matrix_id >= 6 {
        scaling_from_end(b, p, size_id + 1, 0)
    } else {
        scaling_from_end(
            b,
            scaling_elem_end(b, p, size_id),
            size_id,
            matrix_id + (if size_id == 3 {
                3int
            } else {
                1
            }),
        )
    }
}

/// Whether the scaling-list elements from position (`size_id`,
/// `matrix_id`) on decode from bit `p`.
pub open spec fn scaling_from_ok(b: Seq<u8>, p: int, size_id: int, matrix_id: int) -> bool
    decreases 4 - size_id, 8 - matrix_id,
    when 0 <= size_id && 0 <= matrix_id <= 8
{
    if size_id >= 4 {
        true
    } else if matrix_id >= 6 {
        scaling_from_ok(b, p, size_id + 1, 0)
    } else {
        scaling_elem_ok(b, p, size_id) && scaling_from_ok(
            b,
            scaling_elem_end(b, p, size_id),
            size_id,
            matrix_id + (if size_id == 3 {
                3int
            } else {
                1
            }),
        )
    }
}

/// Walk a scaling_list_data structure: for each of the four block sizes
/// and each matrix (two for the largest size, six otherwise) either a
/// predictor reference or an explicit list of delta coefficients.
/// Success is exactly the structure decoding, and on success the cursor
/// sits just past it, so the syntax that follows stays aligned.
#[verifier::rlimit(100)]
pub fn skip_scaling_list_data(bs: &mut BitReader) -> (r: Result<(), HevcError>)
    requires
        old(bs).wf(),
    ensures
        final(bs).wf(),
        final(bs).bytes() == old(bs).bytes(),
        r matches Err(e) ==> (e == HevcError::BitstreamUnderrun || e
            == HevcError::FieldOutOfRange),
        r is Ok <==> scaling_from_ok(old(bs).bytes(), old(bs).cursor(), 0, 0),
        r is Ok ==> final(bs).cursor() == scaling_from_end(old(bs).bytes(), old(bs).cursor(), 0, 0),
{
    let ghost b = old(bs).bytes();
    let ghost gend = scaling_from_end(b, old(bs).cursor(), 0, 0);
    let ghost gok = scaling_from_ok(b, old(bs).cursor(), 0, 0);
    let mut size_id: usize = 0;
    while size_id < 4
        invariant
            bs.wf(),
            bs.bytes() == old(bs).bytes(),
            b == old(bs).bytes(),
            gend == scaling_from_end(b, old(bs).cursor(), 0, 0),
            gok == scaling_from_ok(b, old(bs).cursor(), 0, 0),
            size_id <= 4,
            scaling_from_end(b, bs.cursor(), size_id as int, 0) == gend,
            scaling_from_ok(b, bs.cursor(), size_id as int, 0) == gok,
        decreases 4 - size_id,
    {
        let step: usize = if size_id == 3 {
            3
        } else {
            1
        };
        let mut matrix_id: usize = 0;
        while matrix_id < 6
            invariant
                bs.wf(),
                bs.bytes() == old(bs).bytes(),
                b == old(bs).bytes(),
                gend == scaling_from_end(b, old(bs).cursor(), 0, 0),
                gok == scaling_from_ok(b, old(bs).cursor(), 0, 0),
                size_id < 4,
                1 <= step <= 3,
                step == (if size_id == 3 {
                    3int
                } else {
                    1
                }),
                matrix_id <= 8,
                scaling_from_end(b, bs.cursor(), size_id as int, matrix_id as int) == gend,
                scaling_from_ok(b, bs.cursor(), size_id as int, matrix_id as int) == gok,
            decreases 8 - matrix_id,
        {
            let ghost p = bs.cursor();
            let pred_mode = bs.get()?;
            if !pred_mode {
                let _ = bs.get_ue()?;
            } else {
                let coef_num: usize = if size_id == 0 {
                    16
                } else {
                    64
                };
                if size_id > 1 {
                    let _ = bs.get_se()?;
                }
                let ghost q = bs.cursor();
                let mut i: usize = 0;
                while i < coef_num
                    invariant
                        bs.wf(),
                        bs.bytes() == old(bs).bytes(),
                        b == old(bs).bytes(),
                        gok == scaling_from_ok(b, old(bs).cursor(), 0, 0),
                        i <= coef_num,
                        coef_num == scaling_coef_count(size_id as int),
                        ue_chain_end(b, bs.cursor(), (coef_num - i) as nat) == ue_chain_end(
                            b,
                            q,
                            coef_num as nat,
                        ),
                        ue_chain_ok(b, q, coef_num as nat) ==> ue_chain_ok(
                            b,
                            bs.cursor(),
                            (coef_num - i) as nat,
                        ),
                        ue_chain_ok(b, bs.cursor(), (coef_num - i) as nat) ==> ue_chain_ok(
                            b,
                            q,
                            coef_num as nat,
                        ),
                        !ue_chain_ok(b, q, coef_num as nat) ==> !gok,
                        ue_chain_ok(b, bs.cursor(), (coef_num - i) as nat) && ue_chain_ok(
                            b,
                            q,
                            coef_num as nat,
                        ) ==> gok == scaling_from_ok(
                            b,
                            ue_chain_end(b, q, coef_num as nat),
                            size_id as int,
                            matrix_id as int + (if size_id == 3 {
                                3int
                            } else {
                                1
                            }),
                        ),
                        size_id < 4,
                        matrix_id < 6,
                    decreases coef_num - i,
                {
                    let _ = bs.get_se()?;
                    i = i + 1;
                }
            }
            proof {
                assert(bs.cursor() == scaling_elem_end(b, p, size_id as int));
            }
            matrix_id = matrix_id + step;
        }
        size_id = size_id + 1;
    }
    Ok(())
}

} // verus!
