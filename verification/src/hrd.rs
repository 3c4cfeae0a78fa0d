//! Traversal of hrd_parameters and its per-sub-layer tables.
//!
//! The timing-model fields are consumed for alignment; none of them is
//! kept.  The contracts pin the exact number of bits consumed: the spec
//! functions below walk the same grammar over the raw bits.

use vstd::prelude::*;

use crate::bitreader::{bit_at, ue_end, ue_ok, ue_value, BitReader};
use crate::errors::HevcError;

verus! {

/// Bit index just past one coded-picture-buffer entry of a sub-layer HRD
/// table starting at bit `p`: two exp-Golomb codes, two more when
/// sub-picture parameters are present, then the cbr bit.
pub open spec fn slh_entry_end(b: Seq<u8>, p: int, subpic: bool) -> int {
    let p1 = ue_end(b, ue_end(b, p));
    let p2 = if subpic {
        ue_end(b, ue_end(b, p1))
    } else {
        p1
    };
    p2 + 1
}

/// Whether one coded-picture-buffer entry decodes at bit `p`.
pub open spec fn slh_entry_ok(b: Seq<u8>, p: int, subpic: bool) -> bool {
    let p1 = ue_end(b, ue_end(b, p));
    &&& ue_ok(b, p)
    &&& ue_ok(b, ue_end(b, p))
    &&& (subpic ==> ue_ok(b, p1) && ue_ok(b, ue_end(b, p1)))
    &&& slh_entry_end(b, p, subpic) <= b.len() * 8
}

/// Bit index just past `n` coded-picture-buffer entries starting at `p`.
pub open spec fn slh_end(b: Seq<u8>, p: int, n: nat, subpic: bool) -> int
    decreases n,
{
    if n == 0 {
        p
    } else {
        slh_end(b, slh_entry_end(b, p, subpic), (n - 1) as nat, subpic)
    }
}

/// Whether `n` coded-picture-buffer entries decode from `p`.
pub open spec fn slh_ok(b: Seq<u8>, p: int, n: nat, subpic: bool) -> bool
    decreases n,
{
    n == 0 || (slh_entry_ok(b, p, subpic) && slh_ok(
        b,
        slh_entry_end(b, p, subpic),
        (n - 1) as nat,
        subpic,
    ))
}

/// Bit index just past the common-information block of an hrd_parameters
/// starting at bit `c`: two presence flags and, when either is set, the
/// sub-picture fields and the rate and size scales.
pub open spec fn hrd_common_end(b: Seq<u8>, c: int, common: bool) -> int {
    if !common {
        c
    } else if !bit_at(b, c) && !bit_at(b, c + 1) {
        c + 2
    } else {
        let subpic = bit_at(b, c + 2);
        c + 3 + (if subpic {
            19int
        } else {
            0
        }) + 8 + (if subpic {
            4int
        } else {
            0
        }) + 15
    }
}

/// Bit index just past one sub-layer of an hrd_parameters starting at bit
/// `p`: the fixed-rate flag (re-read once when initially clear), a
/// duration code when fixed, a low-delay flag otherwise, a buffer count
/// when not low delay, then one sub-layer table per set presence flag.
pub open spec fn hrd_layer_end(b: Seq<u8>, p: int, nal_p: bool, vcl_p: bool, subpic: bool) -> int {
    let fixed = bit_at(b, p) || bit_at(b, p + 1);
    let pbase = if bit_at(b, p) {
        p + 1
    } else {
        p + 2
    };
    let low_delay = !fixed && bit_at(b, pbase);
    let q = if fixed {
        ue_end(b, pbase)
    } else {
        pbase + 1
    };
    let nb: nat = if !low_delay {
        ue_value(b, q) + 1
    } else {
        1
    };
    let q2 = if !low_delay {
        ue_end(b, q)
    } else {
        q
    };
    let q3 = if nal_p {
        slh_end(b, q2, nb, subpic)
    } else {
        q2
    };
    if vcl_p {
        slh_end(b, q3, nb, subpic)
    } else {
        q3
    }
}

/// Whether one sub-layer of an hrd_parameters decodes at bit `p`.
pub open spec fn hrd_layer_ok(b: Seq<u8>, p: int, nal_p: bool, vcl_p: bool, subpic: bool) -> bool {
    let fixed = bit_at(b, p) || bit_at(b, p + 1);
    let pbase = if bit_at(b, p) {
        p + 1
    } else {
        p + 2
    };
    let low_delay = !fixed && bit_at(b, pbase);
    let q = if fixed {
        ue_end(b, pbase)
    } else {
        pbase + 1
    };
    let nb: nat = if !low_delay {
        ue_value(b, q) + 1
    } else {
        1
    };
    let q2 = if !low_delay {
        ue_end(b, q)
    } else {
        q
    };
    let q3 = if nal_p {
        slh_end(b, q2, nb, subpic)
    } else {
        q2
    };
    &&& pbase <= b.len() * 8
    &&& (fixed ==> ue_ok(b, pbase))
    &&& (!fixed ==> pbase + 1 <= b.len() * 8)
    &&& (!low_delay ==> ue_ok(b, q))
    &&& (nal_p ==> slh_ok(b, q2, nb, subpic))
    &&& (vcl_p ==> slh_ok(b, q3, nb, subpic))
}

/// Bit index just past `n` sub-layers starting at `p`.
pub open spec fn hrd_layers_end(
    b: Seq<u8>,
    p: int,
    n: nat,
    nal_p: bool,
    vcl_p: bool,
    subpic: bool,
) -> int
    decreases n,
{
    if n == 0 {
        p
    } else {
        hrd_layers_end(b, hrd_layer_end(b, p, nal_p, vcl_p, subpic), (n - 1) as nat, nal_p, vcl_p, subpic)
    }
}

/// Whether `n` sub-layers decode from `p`.
pub open spec fn hrd_layers_ok(
    b: Seq<u8>,
    p: int,
    n: nat,
    nal_p: bool,
    vcl_p: bool,
    subpic: bool,
) -> bool
    decreases n,
{
    n == 0 || (hrd_layer_ok(b, p, nal_p, vcl_p, subpic) && hrd_layers_ok(
        b,
        hrd_layer_end(b, p, nal_p, vcl_p, subpic),
        (n - 1) as nat,
        nal_p,
        vcl_p,
        subpic,
    ))
}

/// The NAL-parameters presence flag of an hrd_parameters at bit `c`.
pub open spec fn hrd_nal_flag(b: Seq<u8>, c: int, common: bool) -> bool {
    common && bit_at(b, c)
}

/// The VCL-parameters presence flag of an hrd_parameters at bit `c`.
pub open spec fn hrd_vcl_flag(b: Seq<u8>, c: int, common: bool) -> bool {
    common && bit_at(b, c + 1)
}

/// The sub-picture presence flag of an hrd_parameters at bit `c`.
pub open spec fn hrd_subpic_flag(b: Seq<u8>, c: int, common: bool) -> bool {
    common && (bit_at(b, c) || bit_at(b, c + 1)) && bit_at(b, c + 2)
}

/// Bit index just past a whole hrd_parameters starting at bit `c` with
/// `msl` sub-layers.
pub open spec fn hrd_end(b: Seq<u8>, c: int, common: bool, msl: nat) -> int {
    hrd_layers_end(
        b,
        hrd_common_end(b, c, common),
        msl,
        hrd_nal_flag(b, c, common),
        hrd_vcl_flag(b, c, common),
        hrd_subpic_flag(b, c, common),
    )
}

/// Whether a whole hrd_parameters decodes at bit `c`.
pub open spec fn hrd_ok(b: Seq<u8>, c: int, common: bool, msl: nat) -> bool {
    &&& hrd_common_end(b, c, common) <= b.len() * 8
    &&& hrd_layers_ok(
        b,
        hrd_common_end(b, c, common),
        msl,
        hrd_nal_flag(b, c, common),
        hrd_vcl_flag(b, c, common),
        hrd_subpic_flag(b, c, common),
    )
}

/// The hypothetical-reference-decoder parameters; parsed for alignment
/// only, so the record carries no fields.
#[derive(Debug, Clone)]
pub struct HrdParameters {}

/// One sub-layer table of hrd_parameters; parsed for alignment only.
#[derive(Debug, Clone)]
pub struct SubLayerHrdParameter {}

impl HrdParameters {
    /// Walk an hrd_parameters structure: the common-information block when
    /// present, then per sub-layer the rate controls and the NAL and VCL
    /// tables.  Success is exactly the pattern decoding, and on success
    /// the cursor sits just past it, so the syntax that follows stays
    /// aligned.
    #[verifier::rlimit(100)]
    pub fn parse(bs: &mut BitReader, common_inf_present: bool, vps_max_sub_layers: u8) -> (r:
        Result<(), HevcError>)
        requires
            old(bs).wf(),
        ensures
            final(bs).wf(),
            final(bs).bytes() == old(bs).bytes(),
            r matches Err(e) ==> (e == HevcError::BitstreamUnderrun || e
                == HevcError::FieldOutOfRange),
            r is Ok <==> hrd_ok(
                old(bs).bytes(),
                old(bs).cursor(),
                common_inf_present,
                vps_max_sub_layers as nat,
            ),
            r is Ok ==> final(bs).cursor() == hrd_end(
                old(bs).bytes(),
                old(bs).cursor(),
                common_inf_present,
                vps_max_sub_layers as nat,
            ),
    {
        let ghost b = old(bs).bytes();
        let ghost c = old(bs).cursor();
        let mut nal_params_present = false;
        let mut vcl_params_present = false;
        let mut subpic_params_present = false;
        if common_inf_present {
            nal_params_present = bs.get()?;
            vcl_params_present = bs.get()?;
            if nal_params_present || vcl_params_present {
                subpic_params_present = bs.get()?;
                if subpic_params_present {
                    bs.skip_n(8)?;  // tick_divisor_minus2
                    bs.skip_n(5)?;  // du_cpb_removal_delay_increment_length_minus1
                    bs.skip_n(1)?;  // sub_pic_cpb_params_in_pic_timing_sei_flag
                    bs.skip_n(5)?;  // dpb_output_delay_du_length_minus1
                }
                bs.skip_n(4)?;  // bit_rate_scale
                bs.skip_n(4)?;  // cpb_size_scale
                if subpic_params_present {
                    bs.skip_n(4)?;  // cpb_size_du_scale
                }
                bs.skip_n(5)?;  // initial_cpb_removal_delay_length_minus1
                bs.skip_n(5)?;  // au_cpb_removal_delay_length_minus1
                bs.skip_n(5)?;  // dpb_output_delay_length_minus1
            }
        }
        proof {
            assert(bs.cursor() == hrd_common_end(b, c, common_inf_present));
            assert(nal_params_present == hrd_nal_flag(b, c, common_inf_present));
            assert(vcl_params_present == hrd_vcl_flag(b, c, common_inf_present));
            assert(subpic_params_present == hrd_subpic_flag(b, c, common_inf_present));
        }
        let ghost gend = hrd_end(b, c, common_inf_present, vps_max_sub_layers as nat);
        let ghost gok = hrd_ok(b, c, common_inf_present, vps_max_sub_layers as nat);
        proof {
            bs.lemma_cursor_in_bounds();
        }
        let mut layer: u8 = 0;
        while layer < vps_max_sub_layers
            invariant
                bs.wf(),
                bs.bytes() == old(bs).bytes(),
                b == old(bs).bytes(),
                c == old(bs).cursor(),
                gend == hrd_end(b, c, common_inf_present, vps_max_sub_layers as nat),
                gok == hrd_ok(b, c, common_inf_present, vps_max_sub_layers as nat),
                nal_params_present == hrd_nal_flag(b, c, common_inf_present),
                vcl_params_present == hrd_vcl_flag(b, c, common_inf_present),
                subpic_params_present == hrd_subpic_flag(b, c, common_inf_present),
                hrd_common_end(b, c, common_inf_present) <= b.len() * 8,
                layer <= vps_max_sub_layers,
                hrd_layers_end(
                    b,
                    bs.cursor(),
                    (vps_max_sub_layers - layer) as nat,
                    nal_params_present,
                    vcl_params_present,
                    subpic_params_present,
                ) == gend,
                hrd_layers_ok(
                    b,
                    bs.cursor(),
                    (vps_max_sub_layers - layer) as nat,
                    nal_params_present,
                    vcl_params_present,
                    subpic_params_present,
                ) == gok,
            decreases vps_max_sub_layers - layer,
        {
            proof {
                vstd::arithmetic::power2::lemma2_to64();
            }
            let ghost p = bs.cursor();
            let mut low_delay = false;
            let mut nb_cpb: u64 = 1;
            let mut fixed_rate = bs.get()?;
            if !fixed_rate {
                fixed_rate = bs.get()?;
            }
            if fixed_rate {
                let _ = bs.get_ue()?;
            } else {
                low_delay = bs.get()?;
            }
            if !low_delay {
                nb_cpb = bs.get_ue()? + 1;
            }
            if nal_params_present {
                SubLayerHrdParameter::parse(bs, nb_cpb, subpic_params_present)?;
            }
            if vcl_params_present {
                SubLayerHrdParameter::parse(bs, nb_cpb, subpic_params_present)?;
            }
            proof {
                assert(bs.cursor() == hrd_layer_end(
                    b,
                    p,
                    nal_params_present,
                    vcl_params_present,
                    subpic_params_present,
                ));
            }
            layer = layer + 1;
        }
        Ok(())
    }
}

impl SubLayerHrdParameter {
    /// Walk one sub-layer table: per coded-picture buffer the rate and size
    /// codes, the sub-picture variants when present, and the cbr flag.
    /// Success is exactly the `nb_cpb` entries decoding, and on success
    /// the cursor sits just past them.
    pub fn parse(bs: &mut BitReader, nb_cpb: u64, subpic_params_present: bool) -> (r: Result<
        (),
        HevcError,
    >)
        requires
            old(bs).wf(),
        ensures
            final(bs).wf(),
            final(bs).bytes() == old(bs).bytes(),
            r matches Err(e) ==> (e == HevcError::BitstreamUnderrun || e
                == HevcError::FieldOutOfRange),
            r is Ok <==> slh_ok(
                old(bs).bytes(),
                old(bs).cursor(),
                nb_cpb as nat,
                subpic_params_present,
            ),
            r is Ok ==> final(bs).cursor() == slh_end(
                old(bs).bytes(),
                old(bs).cursor(),
                nb_cpb as nat,
                subpic_params_present,
            ),
    {
        let ghost b = old(bs).bytes();
        let ghost gend = slh_end(b, old(bs).cursor(), nb_cpb as nat, subpic_params_present);
        let ghost gok = slh_ok(b, old(bs).cursor(), nb_cpb as nat, subpic_params_present);
        let mut i: u64 = 0;
        while i < nb_cpb
            invariant
                bs.wf(),
                bs.bytes() == old(bs).bytes(),
                b == old(bs).bytes(),
                gend == slh_end(b, old(bs).cursor(), nb_cpb as nat, subpic_params_present),
                gok == slh_ok(b, old(bs).cursor(), nb_cpb as nat, subpic_params_present),
                i <= nb_cpb,
                slh_end(b, bs.cursor(), (nb_cpb - i) as nat, subpic_params_present) == gend,
                slh_ok(b, bs.cursor(), (nb_cpb - i) as nat, subpic_params_present) == gok,
            decreases nb_cpb - i,
        {
            let ghost p = bs.cursor();
            let _ = bs.get_ue()?;  // bit_rate_value_minus1
            let _ = bs.get_ue()?;  // cpb_size_value_minus1
            if subpic_params_present {
                let _ = bs.get_ue()?;  // cpb_size_du_value_minus1
                let _ = bs.get_ue()?;  // bit_rate_du_value_minus1
            }
            bs.skip_n(1)?;  // cbr_flag
            proof {
                assert(bs.cursor() == slh_entry_end(b, p, subpic_params_present));
            }
            i = i + 1;
        }
        Ok(())
    }
}

} // verus!
