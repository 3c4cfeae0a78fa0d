//! Emulation-prevention codec for NAL payloads.
//!
//! Inside a NAL unit the byte sequences `00 00 00`, `00 00 01` and `00 00 02`
//! must not occur; an encoder breaks them up by inserting a `03` after every
//! `00 00` that would be followed by a byte of value three or less.  The two
//! operations here remove and re-insert those emulation-prevention bytes:
//! a byte is dropped exactly when the two preceding input bytes are zero and
//! it holds the value three, and a three is inserted exactly before a byte of
//! value at most three that follows two zeros.

use vstd::prelude::*;

verus! {

/// Number of consecutive zero bytes just before the current position after
/// consuming `b` with `z` zeros pending, saturated at two (only "at least
/// two" matters for the codec).
pub open spec fn next_zeros(z: nat, b: u8) -> nat {
    if b == 0 {
        if z >= 2 {
            2
        } else {
            z + 1
        }
    } else {
        0
    }
}

/// Unescaping of `s` when `z` zero bytes directly precede it: a `03` after
/// two zeros is dropped, everything else is copied.
pub open spec fn unescape_rec(s: Seq<u8>, z: nat) -> Seq<u8>
    decreases s.len(),
{
    if s.len() == 0 {
        Seq::empty()
    } else if z >= 2 && s[0] == 3 {
        unescape_rec(s.drop_first(), next_zeros(z, s[0]))
    } else {
        seq![s[0]] + unescape_rec(s.drop_first(), next_zeros(z, s[0]))
    }
}

/// The unescaped form of `s`: every third byte of a `00 00 03` window is
/// removed.
pub open spec fn unescape_spec(s: Seq<u8>) -> Seq<u8> {
    unescape_rec(s, 0)
}

/// Escaping of `s` when `z` zero bytes directly precede it in the output: a
/// `03` is inserted before every byte of value at most three that would
/// follow two zeros.
pub open spec fn escape_rec(s: Seq<u8>, z: nat) -> Seq<u8>
    decreases s.len(),
{
    if s.len() == 0 {
        Seq::empty()
    } else if z >= 2 && s[0] <= 3 {
        seq![3u8, s[0]] + escape_rec(s.drop_first(), next_zeros(0, s[0]))
    } else {
        seq![s[0]] + escape_rec(s.drop_first(), next_zeros(z, s[0]))
    }
}

/// The escaped form of `s`: a `03` stands before every `00 00 0x` window
/// with `x` at most three.
pub open spec fn escape_spec(s: Seq<u8>) -> Seq<u8> {
    escape_rec(s, 0)
}

/// Remove the emulation-prevention bytes of a NAL payload: for every window
/// `00 00 03` the trailing `03` is dropped; the first two bytes are always
/// kept.
pub fn clear_start_code_emulation_prevention_3_byte(data: &[u8]) -> (r: Vec<u8>)
    ensures
        r@ == unescape_spec(data@),
        r@.len() <= data@.len(),
{
    let mut out: Vec<u8> = Vec::new();
    let mut z: u8 = 0;
    let mut i: usize = 0;
    proof {
        assert(data@.subrange(0, data@.len() as int) =~= data@);
        assert(Seq::<u8>::empty() + unescape_rec(data@, 0) =~= unescape_rec(data@, 0));
    }
    while i < data.len()
        invariant
            i <= data.len(),
            z <= 2,
            out@.len() <= i,
            unescape_spec(data@) == out@ + unescape_rec(
                data@.subrange(i as int, data@.len() as int),
                z as nat,
            ),
        decreases data.len() - i,
    {
        let ghost pre = data@.subrange(i as int, data@.len() as int);
        proof {
            assert(pre.drop_first() =~= data@.subrange(i + 1, data@.len() as int));
        }
        let b = data[i];
        if z >= 2 && b == 3 {
            z = 0;
        } else {
            out.push(b);
            z = if b == 0 {
                if z < 2 {
                    z + 1
                } else {
                    2
                }
            } else {
                0
            };
        }
        i = i + 1;
    }
    proof {
        assert(data@.subrange(data@.len() as int, data@.len() as int) =~= Seq::<u8>::empty());
        assert(out@ + Seq::<u8>::empty() =~= out@);
    }
    out
}

/// Insert the emulation-prevention bytes of a NAL payload: a `03` goes
/// before every byte of value at most three that follows two zeros.
pub fn add_start_code_emulation_prevention_3_byte(data: &mut Vec<u8>)
    ensures
        final(data)@ == escape_spec(old(data)@),
{
    let mut out: Vec<u8> = Vec::new();
    let mut z: u8 = 0;
    let mut i: usize = 0;
    proof {
        assert(data@.subrange(0, data@.len() as int) =~= data@);
        assert(Seq::<u8>::empty() + escape_rec(data@, 0) =~= escape_rec(data@, 0));
    }
    while i < data.len()
        invariant
            i <= data.len(),
            z <= 2,
            data@ == old(data)@,
            escape_spec(data@) == out@ + escape_rec(
                data@.subrange(i as int, data@.len() as int),
                z as nat,
            ),
        decreases data.len() - i,
    {
        let ghost pre = data@.subrange(i as int, data@.len() as int);
        proof {
            assert(pre.drop_first() =~= data@.subrange(i + 1, data@.len() as int));
        }
        let b = data[i];
        if z >= 2 && b <= 3 {
            out.push(3);
            out.push(b);
            z = if b == 0 {
                1
            } else {
                0
            };
        } else {
            out.push(b);
            z = if b == 0 {
                if z < 2 {
                    z + 1
                } else {
                    2
                }
            } else {
                0
            };
        }
        i = i + 1;
    }
    proof {
        assert(data@.subrange(data@.len() as int, data@.len() as int) =~= Seq::<u8>::empty());
        assert(out@ + Seq::<u8>::empty() =~= out@);
    }
    *data = out;
}

proof fn lemma_unescape_escape_rec(s: Seq<u8>, z: nat)
    requires
        z <= 2,
    ensures
        unescape_rec(escape_rec(s, z), z) == s,
    decreases s.len(),
{
    if s.len() == 0 {
        assert(unescape_rec(escape_rec(s, z), z) =~= s);
    } else if z >= 2 && s[0] <= 3 {
        let rest = escape_rec(s.drop_first(), next_zeros(0, s[0]));
        let e = escape_rec(s, z);
        assert(e == seq![3u8, s[0]] + rest);
        assert(e[0] == 3);
        assert(e.drop_first() =~= seq![s[0]] + rest);
        assert((seq![s[0]] + rest).drop_first() =~= rest);
        lemma_unescape_escape_rec(s.drop_first(), next_zeros(0, s[0]));
        assert(unescape_rec(e, z) == unescape_rec(seq![s[0]] + rest, 0));
        assert(unescape_rec(seq![s[0]] + rest, 0) == seq![s[0]] + unescape_rec(
            rest,
            next_zeros(0, s[0]),
        ));
        assert(unescape_rec(e, z) =~= s);
    } else {
        let z2 = next_zeros(z, s[0]);
        let rest = escape_rec(s.drop_first(), z2);
        let e = escape_rec(s, z);
        assert(e == seq![s[0]] + rest);
        assert(e[0] == s[0]);
        assert(e.drop_first() =~= rest);
        assert(!(z >= 2 && e[0] == 3));
        lemma_unescape_escape_rec(s.drop_first(), z2);
        assert(unescape_rec(e, z) == seq![s[0]] + unescape_rec(rest, z2));
        assert(unescape_rec(e, z) =~= s);
    }
}

/// Escaping then unescaping returns any byte buffer unchanged: the two
/// operations are byte-exact inverses over every payload.
pub proof fn lemma_escape_round_trip(b: Seq<u8>)
    ensures
        unescape_spec(escape_spec(b)) == b,
{
    lemma_unescape_escape_rec(b, 0);
}

proof fn lemma_escape_noop_rec(s: Seq<u8>, z: nat)
    requires
        z <= 2,
        z >= 2 && s.len() >= 1 ==> s[0] > 3,
        z >= 1 && s.len() >= 2 && s[0] == 0 ==> s[1] > 3,
        forall|i: int|
            2 <= i < s.len() ==> !(s[i - 2] == 0 && s[i - 1] == 0 && #[trigger] s[i] <= 3),
    ensures
        escape_rec(s, z) == s,
    decreases s.len(),
{
    if s.len() == 0 {
        assert(escape_rec(s, z) =~= s);
    } else {
        let z2 = next_zeros(z, s[0]);
        let t = s.drop_first();
        assert(forall|i: int|
            2 <= i < t.len() ==> !(t[i - 2] == 0 && t[i - 1] == 0 && #[trigger] t[i] <= 3)) by {
            assert(forall|i: int| 0 <= i < t.len() ==> t[i] == s[i + 1]);
        }
        if z2 >= 2 && t.len() >= 1 {
            assert(s[0] == 0 && z >= 1);
            assert(t[0] == s[1]);
        }
        if z2 >= 1 && t.len() >= 2 && t[0] == 0 {
            assert(s[0] == 0 && s[1] == 0);
            assert(s[2] <= 3 ==> false);
            assert(t[1] == s[2]);
        }
        lemma_escape_noop_rec(t, z2);
        assert(escape_rec(s, z) =~= s);
    }
}

/// A buffer with no `00 00 0x` window (`x` at most three) is left unchanged
/// by escaping.
pub proof fn lemma_escape_identity(b: Seq<u8>)
    requires
        forall|i: int|
            2 <= i < b.len() ==> !(b[i - 2] == 0 && b[i - 1] == 0 && #[trigger] b[i] <= 3),
    ensures
        escape_spec(b) == b,
{
    lemma_escape_noop_rec(b, 0);
}

} // verus!
