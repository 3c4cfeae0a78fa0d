//! Parser and stream sequencer for HEVC (H.265) Annex B and length-prefixed
//! bitstreams.
//!
//! The crate splits a byte stream into NAL units, decodes the parameter sets
//! and slice headers at bit granularity, reconstructs the picture order count
//! of every coded slice, groups NAL units into access units and re-sorts the
//! frames from decode order into presentation order at each random-access
//! point.

use vstd::prelude::*;

use crate::bitreader::{bit_at, bits_value};
use crate::context::Context;
use crate::errors::HevcError;
use crate::nal::{Frame, NALUnit, NAL_EOB_NUT, NAL_EOS_NUT};
use crate::slice::SliceNAL;

pub mod bitreader;
pub mod config;
pub mod context;
pub mod emit;
pub mod errors;
pub mod escape;
pub mod hrd;
pub mod hvcc;
pub mod nal;
pub mod pps;
pub mod ptl;
pub mod scaling;
pub mod sei;
pub mod slice;
pub mod sps;
pub mod strps;
pub mod veccmp;
pub mod vps;
pub mod vui;

verus! {

/// Start code introducing a NAL unit in an Annex B stream: either the three
/// bytes `00 00 01` or the four bytes `00 00 00 01`.
#[derive(Debug, Copy, Clone, PartialEq, Eq, Structural)]
pub enum NALUStartCode {
    Length3,
    Length4,
}

impl NALUStartCode {
    /// The bytes of the start code.
    pub fn slice(&self) -> (r: &'static [u8])
        ensures
            r@ == self.bytes(),
    {
        match self {
            NALUStartCode::Length3 => {
                let r: &'static [u8] = &[0, 0, 1];
                proof {
                    assert(r@ =~= self.bytes());
                }
                r
            },
            NALUStartCode::Length4 => {
                let r: &'static [u8] = &[0, 0, 0, 1];
                proof {
                    assert(r@ =~= self.bytes());
                }
                r
            },
        }
    }

    /// Length of the start code in bytes.
    pub fn size(&self) -> (r: usize)
        ensures
            r == self.bytes().len(),
            r == 3 || r == 4,
    {
        match self {
            NALUStartCode::Length3 => 3,
            NALUStartCode::Length4 => 4,
        }
    }

    /// The start code bytes, as a mathematical sequence.
    pub open spec fn bytes(self) -> Seq<u8> {
        match self {
            NALUStartCode::Length3 => seq![0u8, 0u8, 1u8],
            NALUStartCode::Length4 => seq![0u8, 0u8, 0u8, 1u8],
        }
    }
}

impl Default for NALUStartCode {
    fn default() -> (r: Self)
        ensures
            r == NALUStartCode::Length3,
    {
        NALUStartCode::Length3
    }
}

/// The next value of a frame counter, held at the top of its range.
pub open spec fn sat_inc(x: u64) -> u64 {
    if x == u64::MAX {
        x
    } else {
        (x + 1) as u64
    }
}

/// The frame that closing `cur` produces: its presentation number and
/// frame type are taken from the recorded first slice.
pub open spec fn frame_closed(cur: Frame) -> Frame {
    Frame {
        decoded_number: cur.decoded_number,
        presentation_number: cur.first_slice.output_picture_number,
        frame_type: cur.first_slice.slice_type,
        nals: cur.nals,
        first_slice: cur.first_slice,
    }
}

/// `f` inserted into `s` before the first frame with a strictly greater
/// presentation number (after any frame with an equal one).
pub open spec fn insert_frame_spec(s: Seq<Frame>, f: Frame) -> Seq<Frame>
    decreases s.len(),
{
    if s.len() == 0 {
        seq![f]
    } else if f.presentation_number < s[0].presentation_number {
        seq![f] + s
    } else {
        seq![s[0]] + insert_frame_spec(s.drop_first(), f)
    }
}

/// The frames of `s`, in order, inserted one by one into `acc`.
pub open spec fn ins_all_frames(acc: Seq<Frame>, s: Seq<Frame>) -> Seq<Frame>
    decreases s.len(),
{
    if s.len() == 0 {
        acc
    } else {
        ins_all_frames(insert_frame_spec(acc, s[0]), s.drop_first())
    }
}

/// `s` sorted by presentation number ascending, stably.
pub open spec fn sort_frames_spec(s: Seq<Frame>) -> Seq<Frame> {
    ins_all_frames(Seq::empty(), s)
}

/// Whether `s` is ordered by presentation number ascending.
pub open spec fn sorted_by_pn(s: Seq<Frame>) -> bool {
    forall|i: int, j: int|
        0 <= i < j < s.len() ==> #[trigger] s[i].presentation_number <= #[trigger] s[
            j
        ].presentation_number
}

/// `s` with the presentation numbers rewritten to run consecutively from
/// `start`.
pub open spec fn renumber_frames_spec(s: Seq<Frame>, start: int) -> Seq<Frame> {
    Seq::new(
        s.len(),
        |i: int|
            Frame {
                decoded_number: s[i].decoded_number,
                presentation_number: (start + i) as u64,
                frame_type: s[i].frame_type,
                nals: s[i].nals,
                first_slice: s[i].first_slice,
            },
    )
}

proof fn lemma_insert_frame_sorted(s: Seq<Frame>, f: Frame)
    requires
        sorted_by_pn(s),
    ensures
        sorted_by_pn(insert_frame_spec(s, f)),
        insert_frame_spec(s, f).len() == s.len() + 1,
    decreases s.len(),
{
    if s.len() == 0 {
    } else if f.presentation_number < s[0].presentation_number {
        let r = seq![f] + s;
        assert forall|i: int, j: int| 0 <= i < j < r.len() implies #[trigger] r[
            i
        ].presentation_number <= #[trigger] r[j].presentation_number by {
            if i > 0 {
                assert(r[i] == s[i - 1]);
                assert(r[j] == s[j - 1]);
            }
        }
    } else {
        let t = s.drop_first();
        assert(forall|i: int, j: int|
            0 <= i < j < t.len() ==> #[trigger] t[i].presentation_number <= #[trigger] t[
                j
            ].presentation_number) by {
            assert(forall|i: int| 0 <= i < t.len() ==> t[i] == s[i + 1]);
        }
        lemma_insert_frame_sorted(t, f);
        let rt = insert_frame_spec(t, f);
        let r = seq![s[0]] + rt;
        assert forall|i: int, j: int| 0 <= i < j < r.len() implies #[trigger] r[
            i
        ].presentation_number <= #[trigger] r[j].presentation_number by {
            if i == 0 {
                // the head is at most every element of the inserted tail
                assert(r[j] == rt[j - 1]);
                lemma_insert_members(t, f, j - 1);
            } else {
                assert(r[i] == rt[i - 1]);
                assert(r[j] == rt[j - 1]);
            }
        }
    }
}

proof fn lemma_insert_members(s: Seq<Frame>, f: Frame, k: int)
    requires
        0 <= k < insert_frame_spec(s, f).len(),
    ensures
        insert_frame_spec(s, f)[k] == f || exists|m: int|
            0 <= m < s.len() && insert_frame_spec(s, f)[k] == s[m],
    decreases s.len(),
{
    if s.len() == 0 {
    } else if f.presentation_number < s[0].presentation_number {
        if k > 0 {
            assert(insert_frame_spec(s, f)[k] == s[k - 1]);
        }
    } else {
        if k > 0 {
            let t = s.drop_first();
            lemma_insert_members(t, f, k - 1);
            assert(insert_frame_spec(s, f)[k] == insert_frame_spec(t, f)[k - 1]);
            if insert_frame_spec(t, f)[k - 1] != f {
                let m = choose|m: int|
                    0 <= m < t.len() && insert_frame_spec(t, f)[k - 1] == t[m];
                assert(t[m] == s[m + 1]);
            }
        }
    }
}

proof fn lemma_ins_all_sorted(acc: Seq<Frame>, s: Seq<Frame>)
    requires
        sorted_by_pn(acc),
    ensures
        sorted_by_pn(ins_all_frames(acc, s)),
        ins_all_frames(acc, s).len() == acc.len() + s.len(),
    decreases s.len(),
{
    if s.len() > 0 {
        lemma_insert_frame_sorted(acc, s[0]);
        lemma_ins_all_sorted(insert_frame_spec(acc, s[0]), s.drop_first());
    }
}

/// Sorting leaves a sequence ordered by presentation number, with the same
/// length.
pub proof fn lemma_sort_frames_sorted(s: Seq<Frame>)
    ensures
        sorted_by_pn(sort_frames_spec(s)),
        sort_frames_spec(s).len() == s.len(),
{
    lemma_ins_all_sorted(Seq::empty(), s);
}

/// The stream parser and frame sequencer: the active parameter sets, the
/// running picture-order state, the access unit being assembled, and the
/// frames waiting to be re-ordered at the next random-access point.
pub struct HevcParser {
    /// Start code the offset scanner looks for.
    pub nalu_start_code: NALUStartCode,
    ctx: Context,
    nals: Vec<NALUnit>,
    ordered_frames: Vec<Frame>,
    frames: Vec<Frame>,
    poc: u64,
    poc_tid0: u64,
    current_frame: Frame,
    decoded_index: u64,
    presentation_index: u64,
}

impl HevcParser {
    /// Start code the offset scanner looks for.
    pub closed spec fn start_code_spec(self) -> NALUStartCode {
        self.nalu_start_code
    }

    /// The parameter-set tables.
    pub closed spec fn ctx_spec(self) -> Context {
        self.ctx
    }

    /// Every NAL unit recorded so far, in decode order.
    pub closed spec fn nals_view(self) -> Seq<NALUnit> {
        self.nals@
    }

    /// The frames finalized in presentation order.
    pub closed spec fn ordered_frames_view(self) -> Seq<Frame> {
        self.ordered_frames@
    }

    /// The frames of the current group, awaiting re-order.
    pub closed spec fn frames_view(self) -> Seq<Frame> {
        self.frames@
    }

    /// The access unit being assembled.
    pub closed spec fn current_frame_spec(self) -> Frame {
        self.current_frame
    }

    /// The picture order count of the last slice.
    pub closed spec fn poc_value(self) -> u64 {
        self.poc
    }

    /// The picture-order anchor of the last temporal-id-zero slice.
    pub closed spec fn poc_tid0_value(self) -> u64 {
        self.poc_tid0
    }

    /// Number of access units closed so far.
    pub closed spec fn decoded_index_spec(self) -> u64 {
        self.decoded_index
    }

    /// Number of frames already finalized.
    pub closed spec fn presentation_index_spec(self) -> u64 {
        self.presentation_index
    }

    /// The tables are well formed, every stored sequence parameter set is
    /// well formed, and the finalized frames carry consecutive
    /// presentation numbers equal to their positions.
    pub open spec fn wf(self) -> bool {
        &&& self.ctx_spec().wf()
        &&& forall|i: int|
            0 <= i < 16 ==> (#[trigger] self.ctx_spec().sps_view()[i] matches Some(s) ==> s.wf())
        &&& self.presentation_index_spec() == self.ordered_frames_view().len()
        &&& forall|i: int|
            0 <= i < self.ordered_frames_view().len() ==> (#[trigger] self.ordered_frames_view()[
                i
            ]).presentation_number == i
    }

    /// A fresh parser scanning for the given start code, with empty tables
    /// and no frames.
    pub fn with_nalu_start_code(start_code: NALUStartCode) -> (r: HevcParser)
        ensures
            r.wf(),
            r.start_code_spec() == start_code,
            r.nals_view().len() == 0,
            r.ordered_frames_view().len() == 0,
            r.frames_view().len() == 0,
            r.poc_value() == 0,
            r.poc_tid0_value() == 0,
            r.decoded_index_spec() == 0,
            r.presentation_index_spec() == 0,
            r.current_frame_spec().first_slice == SliceNAL::empty_spec(),
            r.current_frame_spec().nals@.len() == 0,
            forall|i: int| 0 <= i < 16 ==> #[trigger] r.ctx_spec().vps_view()[i] is None,
            forall|i: int| 0 <= i < 16 ==> #[trigger] r.ctx_spec().sps_view()[i] is None,
            forall|i: int| 0 <= i < 64 ==> #[trigger] r.ctx_spec().pps_view()[i] is None,
    {
        HevcParser {
            nalu_start_code: start_code,
            ctx: Context::new(),
            nals: Vec::new(),
            ordered_frames: Vec::new(),
            frames: Vec::new(),
            poc: 0,
            poc_tid0: 0,
            current_frame: Frame::empty(),
            decoded_index: 0,
            presentation_index: 0,
        }
    }

    /// Close the access unit being assembled, if it has a recorded first
    /// slice: the frame takes its presentation number and type from that
    /// slice, joins the waiting frames, and a fresh access unit begins.
    fn add_current_frame(&mut self)
        requires
            old(self).wf(),
        ensures
            final(self).wf(),
            final(self).start_code_spec() == old(self).start_code_spec(),
            final(self).ctx_spec() == old(self).ctx_spec(),
            final(self).nals_view() == old(self).nals_view(),
            final(self).ordered_frames_view() == old(self).ordered_frames_view(),
            final(self).poc_value() == old(self).poc_value(),
            final(self).poc_tid0_value() == old(self).poc_tid0_value(),
            final(self).presentation_index_spec() == old(self).presentation_index_spec(),
            if old(self).current_frame_spec().first_slice.first_slice_in_pic_flag {
                &&& final(self).frames_view() == old(self).frames_view().push(
                    frame_closed(old(self).current_frame_spec()),
                )
                &&& final(self).decoded_index_spec() == sat_inc(old(self).decoded_index_spec())
                &&& final(self).current_frame_spec().first_slice == SliceNAL::empty_spec()
                &&& final(self).current_frame_spec().nals@.len() == 0
                &&& final(self).current_frame_spec().decoded_number == 0
                &&& final(self).current_frame_spec().presentation_number == 0
                &&& final(self).current_frame_spec().frame_type == 0
            } else {
                &&& final(self).frames_view() == old(self).frames_view()
                &&& final(self).decoded_index_spec() == old(self).decoded_index_spec()
                &&& final(self).current_frame_spec() == old(self).current_frame_spec()
            },
    {
        if self.current_frame.first_slice.first_slice_in_pic_flag {
            self.decoded_index = self.decoded_index.saturating_add(1);
            self.current_frame.presentation_number =
                self.current_frame.first_slice.output_picture_number;
            self.current_frame.frame_type = self.current_frame.first_slice.slice_type;
            let mut fresh = Frame::empty();
            core::mem::swap(&mut self.current_frame, &mut fresh);
            self.frames.push(fresh);
        }
    }

    /// Sort the waiting frames by presentation number, renumber them to
    /// continue the finalized sequence, and append them to it.
    fn reorder_frames(&mut self)
        requires
            old(self).wf(),
        ensures
            final(self).wf(),
            final(self).start_code_spec() == old(self).start_code_spec(),
            final(self).ctx_spec() == old(self).ctx_spec(),
            final(self).nals_view() == old(self).nals_view(),
            final(self).poc_value() == old(self).poc_value(),
            final(self).poc_tid0_value() == old(self).poc_tid0_value(),
            final(self).decoded_index_spec() == old(self).decoded_index_spec(),
            final(self).current_frame_spec() == old(self).current_frame_spec(),
            final(self).frames_view().len() == 0,
            final(self).ordered_frames_view() == old(self).ordered_frames_view()
                + renumber_frames_spec(
                sort_frames_spec(old(self).frames_view()),
                old(self).ordered_frames_view().len() as int,
            ),
            final(self).presentation_index_spec() == final(self).ordered_frames_view().len(),
    {
        let ghost pending0 = self.frames@;
        let ghost ordered0 = self.ordered_frames@;
        let mut pending: Vec<Frame> = Vec::new();
        core::mem::swap(&mut self.frames, &mut pending);
        let mut sorted = sort_frames(pending);
        let mut ordered: Vec<Frame> = Vec::new();
        core::mem::swap(&mut self.ordered_frames, &mut ordered);
        let ghost base = ordered@.len() as int;
        let ghost sorted0 = sorted@;
        proof {
            lemma_sort_frames_sorted(pending0);
        }
        let ghost total = sorted.len() as int;
        let mut k: usize = 0;
        while sorted.len() > 0
            invariant
                sorted0 == sort_frames_spec(pending0),
                sorted0.len() == total,
                total <= usize::MAX,
                k + sorted@.len() == sorted0.len(),
                sorted@ == sorted0.skip(k as int),
                ordered@.len() == base + k,
                ordered@ == ordered0 + renumber_frames_spec(sorted0, base).take(k as int),
                base == ordered0.len(),
            decreases sorted@.len(),
        {
            let ghost pre = sorted@;
            let f0 = sorted.remove(0);
            let mut f = f0;
            let idx = ordered.len();
            f.presentation_number = idx as u64;
            ordered.push(f);
            k = k + 1;
            proof {
                assert(pre.drop_first() =~= sorted0.skip(k as int));
                assert(sorted@ =~= sorted0.skip(k as int));
                assert(pre[0] == sorted0[k - 1]);
                assert(ordered@ =~= ordered0 + renumber_frames_spec(sorted0, base).take(k as int));
            }
        }
        proof {
            assert(renumber_frames_spec(sorted0, base).take(sorted0.len() as int)
                =~= renumber_frames_spec(sorted0, base));
        }
        core::mem::swap(&mut self.ordered_frames, &mut ordered);
        self.presentation_index = self.ordered_frames.len() as u64;
    }

    /// Close the last access unit and re-order what remains.
    pub fn finish(&mut self)
        requires
            old(self).wf(),
        ensures
            final(self).wf(),
            finish_rel(*old(self), *final(self)),
            final(self).ctx_spec() == old(self).ctx_spec(),
            final(self).nals_view() == old(self).nals_view(),
    {
        self.add_current_frame();
        self.reorder_frames();
    }

    /// The frames of the current group, not yet re-ordered; cleared at
    /// every key frame.
    pub fn processed_frames(&self) -> (r: &Vec<Frame>)
        ensures
            r@ == self.frames_view(),
    {
        &self.frames
    }

    /// The frames finalized in presentation order.
    pub fn ordered_frames(&self) -> (r: &Vec<Frame>)
        ensures
            r@ == self.ordered_frames_view(),
    {
        &self.ordered_frames
    }

    /// Every NAL unit recorded so far.
    pub fn get_nals(&self) -> (r: &Vec<NALUnit>)
        ensures
            r@ == self.nals_view(),
    {
        &self.nals
    }
}

impl Default for HevcParser {
    fn default() -> (r: Self)
        ensures
            r.wf(),
            r.start_code_spec() == NALUStartCode::Length3,
            r.nals_view().len() == 0,
            r.ordered_frames_view().len() == 0,
            r.frames_view().len() == 0,
            r.decoded_index_spec() == 0,
            r.presentation_index_spec() == 0,
            r.current_frame_spec().first_slice == SliceNAL::empty_spec(),
    {
        HevcParser::with_nalu_start_code(NALUStartCode::Length3)
    }
}

/// How one sequencer step on a parsed slice takes the parser from `pre`
/// to `post` and the slice's NAL descriptor from `nal_pre` to `nal_post`:
/// a second first-slice closes the access unit being assembled, a key
/// slice sorts, renumbers and finalizes the frames gathered so far, a
/// first slice is recorded as the new access unit's first slice, and the
/// NAL joins the current access unit.  The picture-order state is not
/// part of this relation.
pub open spec fn slice_step_rel(
    pre: HevcParser,
    post: HevcParser,
    nal_pre: NALUnit,
    nal_post: NALUnit,
    slice: SliceNAL,
) -> bool {
    let closing = pre.current_frame_spec().first_slice.first_slice_in_pic_flag
        && slice.first_slice_in_pic_flag;
    let di1 = if closing {
        sat_inc(pre.decoded_index_spec())
    } else {
        pre.decoded_index_spec()
    };
    let frames1 = if closing {
        pre.frames_view().push(frame_closed(pre.current_frame_spec()))
    } else {
        pre.frames_view()
    };
    let ordered1 = if slice.key_frame {
        pre.ordered_frames_view() + renumber_frames_spec(
            sort_frames_spec(frames1),
            pre.ordered_frames_view().len() as int,
        )
    } else {
        pre.ordered_frames_view()
    };
    let frames2: Seq<Frame> = if slice.key_frame {
        Seq::empty()
    } else {
        frames1
    };
    let nal1 = NALUnit {
        decoded_frame_index: if closing {
            di1
        } else {
            nal_pre.decoded_frame_index
        },
        ..nal_pre
    };
    &&& post.start_code_spec() == pre.start_code_spec()
    &&& post.ctx_spec() == pre.ctx_spec()
    &&& post.nals_view() == pre.nals_view()
    &&& nal_post == nal1
    &&& post.decoded_index_spec() == di1
    &&& post.frames_view() =~= frames2
    &&& post.ordered_frames_view() == ordered1
    &&& post.current_frame_spec().first_slice == (if slice.first_slice_in_pic_flag {
        slice
    } else {
        pre.current_frame_spec().first_slice
    })
    &&& post.current_frame_spec().decoded_number == (if slice.first_slice_in_pic_flag {
        di1
    } else {
        pre.current_frame_spec().decoded_number
    })
    &&& post.current_frame_spec().nals@ =~= (if closing {
        seq![nal1]
    } else {
        pre.current_frame_spec().nals@.push(nal1)
    })
}

/// How `finish` takes the parser from `a` to `b`: the current access unit
/// is closed if it carries a first slice, the waiting frames are sorted,
/// renumbered and appended to the finalized list, and nothing is left
/// waiting.
pub open spec fn finish_rel(a: HevcParser, b: HevcParser) -> bool {
    let closing = a.current_frame_spec().first_slice.first_slice_in_pic_flag;
    let frames1 = if closing {
        a.frames_view().push(frame_closed(a.current_frame_spec()))
    } else {
        a.frames_view()
    };
    &&& b.ordered_frames_view() == a.ordered_frames_view() + renumber_frames_spec(
        sort_frames_spec(frames1),
        a.ordered_frames_view().len() as int,
    )
    &&& b.frames_view().len() == 0
    &&& !b.current_frame_spec().first_slice.first_slice_in_pic_flag
    &&& b.presentation_index_spec() == b.ordered_frames_view().len()
}

/// The finalized frames are strictly monotonic in presentation number:
/// every frame sits at the slot its presentation number names.
pub proof fn lemma_ordered_frames_monotonic(p: HevcParser)
    requires
        p.wf(),
    ensures
        forall|i: int, j: int|
            0 <= i < j < p.ordered_frames_view().len() ==> (#[trigger] p.ordered_frames_view()[
                i
            ]).presentation_number < (#[trigger] p.ordered_frames_view()[j]).presentation_number,
{
}

/// Finishing is idempotent: a second `finish` right after a first leaves
/// the finalized frames unchanged.
pub proof fn lemma_finish_idempotent(s0: HevcParser, s1: HevcParser, s2: HevcParser)
    requires
        finish_rel(s0, s1),
        finish_rel(s1, s2),
    ensures
        s2.ordered_frames_view() == s1.ordered_frames_view(),
{
    assert(s1.frames_view() =~= Seq::<Frame>::empty());
    assert(sort_frames_spec(s1.frames_view()) =~= Seq::<Frame>::empty());
    assert(renumber_frames_spec(Seq::<Frame>::empty(), s1.ordered_frames_view().len() as int)
        =~= Seq::<Frame>::empty());
    assert(s2.ordered_frames_view() =~= s1.ordered_frames_view());
}

proof fn lemma_insert_frame_at(s: Seq<Frame>, f: Frame, idx: int)
    requires
        0 <= idx <= s.len(),
        forall|j: int| 0 <= j < idx ==> !(f.presentation_number < (#[trigger] s[j]).presentation_number),
        idx < s.len() ==> f.presentation_number < s[idx].presentation_number,
    ensures
        s.insert(idx, f) == insert_frame_spec(s, f),
    decreases s.len(),
{
    if s.len() == 0 {
        assert(s.insert(0, f) =~= seq![f]);
    } else if f.presentation_number < s[0].presentation_number {
        assert(idx == 0);
        assert(s.insert(0, f) =~= seq![f] + s);
    } else {
        assert(idx >= 1);
        let t = s.drop_first();
        assert(forall|j: int| 0 <= j < idx - 1 ==> t[j] == s[j + 1]);
        assert(idx - 1 < t.len() ==> t[idx - 1] == s[idx]);
        lemma_insert_frame_at(t, f, idx - 1);
        assert(s.insert(idx, f) =~= seq![s[0]] + t.insert(idx - 1, f));
    }
}

/// Byte count of the largest NAL prefix that is unescaped and decoded;
/// slice and SEI bodies past it are never inspected.
pub const MAX_PARSE_SIZE: usize = 2048;

/// Whether the bytes of `tag` stand in `data` at index `i`.
pub open spec fn matches_tag_at(data: Seq<u8>, tag: Seq<u8>, i: int) -> bool {
    &&& 0 <= i
    &&& i + tag.len() <= data.len()
    &&& data.subrange(i, i + tag.len()) == tag
}

/// The payload offsets the greedy scanner yields from index `from` on:
/// for each non-overlapping occurrence of `tag`, the index just past it.
pub open spec fn offsets_from(data: Seq<u8>, tag: Seq<u8>, from: int) -> Seq<int>
    decreases data.len() - from,
    when 0 <= from && 1 <= tag.len()
{
    if from + tag.len() > data.len() {
        Seq::empty()
    } else if matches_tag_at(data, tag, from) {
        seq![from + tag.len() as int] + offsets_from(data, tag, from + tag.len() as int)
    } else {
        offsets_from(data, tag, from + 1)
    }
}

/// The byte size of the NAL at `offsets[i]`: the distance to the next
/// offset short of its start code (or to the end of the chunk for the NAL
/// at `last`), shrunk by one when the byte before the next start code is
/// zero, so that the zero belongs to a four-byte start code.
pub open spec fn nal_size_at(
    data: Seq<u8>,
    offsets: Seq<usize>,
    last: usize,
    tag_len: int,
    i: int,
) -> int {
    let offset = offsets[i] as int;
    if offset == last {
        data.len() - offset
    } else {
        let next: int = if i == offsets.len() - 1 {
            last as int
        } else {
            offsets[i + 1] as int
        };
        let base = next - offset - tag_len;
        if tag_len == 3 && base >= 1 && data[next - 4] == 0 {
            base - 1
        } else {
            base
        }
    }
}

/// The unescaped payload handed to the bit reader for a NAL at byte range
/// `[offset, offset + size)`: at most `MAX_PARSE_SIZE` bytes of it are
/// unescaped; the rest is untouched.
pub fn nal_payload(data: &[u8], offset: usize, size: usize) -> (r: Vec<u8>)
    requires
        offset + size <= data@.len(),
    ensures
        r@ == crate::escape::unescape_spec(
            data@.subrange(
                offset as int,
                offset + (if size > MAX_PARSE_SIZE {
                    MAX_PARSE_SIZE as int
                } else {
                    size as int
                }),
            ),
        ),
        r@.len() <= MAX_PARSE_SIZE,
{
    proof {
        assert(data.len() == data@.len());
    }
    let parsing_end = if size > MAX_PARSE_SIZE {
        offset + MAX_PARSE_SIZE
    } else {
        offset + size
    };
    crate::escape::clear_start_code_emulation_prevention_3_byte(&data[offset..parsing_end])
}

/// Sort a vector of frames by presentation number ascending, stably.
fn sort_frames(v: Vec<Frame>) -> (r: Vec<Frame>)
    ensures
        r@ == sort_frames_spec(v@),
{
    let ghost orig = v@;
    let mut v = v;
    let mut out: Vec<Frame> = Vec::new();
    proof {
        assert(ins_all_frames(out@, v@) == sort_frames_spec(orig));
    }
    while v.len() > 0
        invariant
            ins_all_frames(out@, v@) == sort_frames_spec(orig),
        decreases v@.len(),
    {
        let ghost vpre = v@;
        let ghost opre = out@;
        let f = v.remove(0);
        let mut idx: usize = 0;
        while idx < out.len() && !(f.presentation_number < out[idx].presentation_number)
            invariant
                idx <= out@.len(),
                out@ == opre,
                forall|j: int|
                    0 <= j < idx ==> !(f.presentation_number < (
                    #[trigger] out@[j]).presentation_number),
            decreases out@.len() - idx,
        {
            idx = idx + 1;
        }
        out.insert(idx, f);
        proof {
            lemma_insert_frame_at(opre, f, idx as int);
            assert(vpre.drop_first() =~= v@);
        }
    }
    proof {
        assert(ins_all_frames(out@, v@) == out@);
    }
    out
}

impl HevcParser {
    /// Scan `data` for the configured start code and collect the byte
    /// index just past each occurrence: the first payload byte of each NAL
    /// unit.  Matches do not overlap because the scan resumes past each
    /// tag.
    pub fn get_offsets(&mut self, data: &[u8], offsets: &mut Vec<usize>)
        ensures
            *final(self) == *old(self),
            final(offsets)@.map_values(|x: usize| x as int) == offsets_from(
                data@,
                old(self).start_code_spec().bytes(),
                0,
            ),
    {
        offsets.clear();
        let tag = self.nalu_start_code.slice();
        let tlen = tag.len();
        let ghost tagseq = self.nalu_start_code.bytes();
        proof {
            assert(data@.subrange(0, data@.len() as int) =~= data@);
        }
        if data.len() < tlen {
            proof {
                assert(offsets_from(data@, tagseq, 0) =~= Seq::<int>::empty());
                assert(offsets@.map_values(|x: usize| x as int) =~= Seq::<int>::empty());
            }
            return ;
        }
        let mut i: usize = 0;
        while i <= data.len() - tlen
            invariant
                3 <= tlen <= 4,
                tlen <= data@.len(),
                tagseq.len() == tlen,
                tag@ == tagseq,
                i <= data@.len(),
                offsets_from(data@, tagseq, 0) == offsets@.map_values(|x: usize| x as int)
                    + offsets_from(data@, tagseq, i as int),
            decreases data@.len() - i,
        {
            let mut j: usize = 0;
            while j < tlen && data[i + j] == tag[j]
                invariant
                    data@.len() <= usize::MAX,
                    i + tlen <= data@.len(),
                    tagseq.len() == tlen,
                    tag@ == tagseq,
                    j <= tlen,
                    forall|t: int| 0 <= t < j ==> data@[i + t] == tagseq[t],
                decreases tlen - j,
            {
                j = j + 1;
            }
            let is_match = j == tlen;
            proof {
                if is_match {
                    assert(data@.subrange(i as int, i + tlen) =~= tagseq);
                } else {
                    assert(data@.subrange(i as int, i + tlen)[j as int] != tagseq[j as int]);
                    assert(data@.subrange(i as int, i + tlen) != tagseq);
                }
            }
            if is_match {
                let ghost before = offsets@;
                offsets.push(i + tlen);
                i = i + tlen;
                proof {
                    assert(offsets@.map_values(|x: usize| x as int) =~= before.map_values(
                        |x: usize| x as int,
                    ).push(i as int));
                    assert(before.map_values(|x: usize| x as int) + (seq![i as int]
                        + offsets_from(data@, tagseq, i as int)) =~= offsets@.map_values(
                        |x: usize| x as int,
                    ) + offsets_from(data@, tagseq, i as int));
                }
            } else {
                i = i + 1;
            }
        }
        proof {
            assert(offsets_from(data@, tagseq, i as int) =~= Seq::<int>::empty());
            assert(offsets@.map_values(|x: usize| x as int) + Seq::<int>::empty() =~= offsets@
                .map_values(|x: usize| x as int));
        }
    }

    /// Split the chunk at the scanned offsets: each NAL runs to the next
    /// offset short of its start code (shrunk by one when the byte before
    /// the next start code is zero), and the NAL at `last` runs to the end
    /// of the chunk.  Each NAL is then handed to the per-NAL parser.
    pub fn split_nals(
        &mut self,
        data: &[u8],
        offsets: &[usize],
        last: usize,
        parse_nals: bool,
    ) -> (r: Result<Vec<NALUnit>, HevcError>)
        requires
            old(self).wf(),
            last <= data@.len(),
            forall|i: int|
                0 <= i < offsets@.len() ==> old(self).start_code_spec().bytes().len() <= (
                #[trigger] offsets@[i]) < data@.len(),
            forall|i: int|
                0 <= i < offsets@.len() - 1 ==> (#[trigger] offsets@[i]) + old(
                    self,
                ).start_code_spec().bytes().len() <= offsets@[i + 1],
            offsets@.len() > 0 ==> (offsets@[offsets@.len() - 1] == last || offsets@[offsets@.len()
                - 1] + old(self).start_code_spec().bytes().len() <= last),
        ensures
            final(self).wf(),
            final(self).start_code_spec() == old(self).start_code_spec(),
            !parse_nals ==> r is Ok,
            r matches Ok(nals) ==> {
                &&& nals@.len() == offsets@.len()
                &&& forall|i: int|
                    0 <= i < nals@.len() ==> {
                        &&& (#[trigger] nals@[i]).start == offsets@[i]
                        &&& nals@[i].end == offsets@[i] + nal_size_at(
                            data@,
                            offsets@,
                            last,
                            old(self).start_code_spec().bytes().len() as int,
                            i,
                        )
                        &&& nals@[i].start_code == (if offsets@[i] >= 4 && data@[offsets@[i] - 4]
                            == 0 {
                            NALUStartCode::Length4
                        } else {
                            NALUStartCode::Length3
                        })
                        &&& !parse_nals ==> nals@[i].nal_type == data@[offsets@[i] as int] >> 1u8
                    }
            },
    {
        let count = offsets.len();
        let mut nals_out: Vec<NALUnit> = Vec::new();
        let tag_len = self.nalu_start_code.size();
        let mut index: usize = 0;
        while index < count
            invariant
                self.wf(),
                self.start_code_spec() == old(self).start_code_spec(),
                count == offsets@.len(),
                index <= count,
                last <= data@.len(),
                tag_len == old(self).start_code_spec().bytes().len(),
                3 <= tag_len <= 4,
                forall|i: int| 0 <= i < count ==> tag_len <= (#[trigger] offsets@[i]) < data@.len(),
                forall|i: int|
                    0 <= i < count - 1 ==> (#[trigger] offsets@[i]) + tag_len <= offsets@[i + 1],
                count > 0 ==> (offsets@[count - 1] == last || offsets@[count - 1] + tag_len <= last),
                nals_out@.len() == index,
                forall|i: int|
                    0 <= i < index ==> {
                        &&& (#[trigger] nals_out@[i]).start == offsets@[i]
                        &&& nals_out@[i].end == offsets@[i] + nal_size_at(
                            data@,
                            offsets@,
                            last,
                            tag_len as int,
                            i,
                        )
                        &&& nals_out@[i].start_code == (if offsets@[i] >= 4 && data@[offsets@[i]
                            - 4] == 0 {
                            NALUStartCode::Length4
                        } else {
                            NALUStartCode::Length3
                        })
                        &&& !parse_nals ==> nals_out@[i].nal_type == data@[offsets@[i] as int]
                            >> 1u8
                    },
            decreases count - index,
        {
            let offset = offsets[index];
            let size: usize = if offset == last {
                data.len() - offset
            } else {
                let next = if index == count - 1 {
                    last
                } else {
                    offsets[index + 1]
                };
                let base = next - offset - tag_len;
                if tag_len == 3 && base >= 1 && data[next - 4] == 0 {
                    base - 1
                } else {
                    base
                }
            };
            let nal = self.parse_nal(data, offset, size, parse_nals)?;
            nals_out.push(nal);
            index = index + 1;
        }
        Ok(nals_out)
    }

    /// Parse the NAL at byte range `[offset, offset + size)` of the chunk
    /// and run the frame sequencer on it.  When `parse_nal` is false only
    /// the first payload byte is read for the type.  The start code is
    /// classified by the byte in front of it: a zero means the four-byte
    /// form.
    fn parse_nal(&mut self, data: &[u8], offset: usize, size: usize, parse_nal: bool) -> (r: Result<
        NALUnit,
        HevcError,
    >)
        requires
            old(self).wf(),
            offset < data@.len(),
            offset + size <= data@.len(),
        ensures
            final(self).wf(),
            final(self).start_code_spec() == old(self).start_code_spec(),
            !parse_nal ==> r is Ok,
            r matches Ok(nal) ==> {
                &&& nal.start == offset
                &&& nal.end == offset + size
                &&& nal.start_code == (if offset >= 4 && data@[offset - 4] == 0 {
                    NALUStartCode::Length4
                } else {
                    NALUStartCode::Length3
                })
                &&& !parse_nal ==> (nal.nal_type == data@[offset as int] >> 1u8 && *final(self)
                    == *old(self))
            },
    {
        let start_code = if offset >= 4 && data[offset - 4] == 0 {
            NALUStartCode::Length4
        } else {
            NALUStartCode::Length3
        };
        self.parse_nal_inner(data, offset, size, parse_nal, start_code)
    }

    /// Parse a NAL whose start code (or framing) is already known and run
    /// the frame sequencer on it.
    fn parse_nal_inner(
        &mut self,
        data: &[u8],
        offset: usize,
        size: usize,
        parse_nal: bool,
        start_code: NALUStartCode,
    ) -> (r: Result<NALUnit, HevcError>)
        requires
            old(self).wf(),
            offset < data@.len(),
            offset + size <= data@.len(),
        ensures
            final(self).wf(),
            final(self).start_code_spec() == old(self).start_code_spec(),
            !parse_nal ==> r is Ok,
            r matches Ok(nal) ==> {
                &&& nal.start == offset
                &&& nal.end == offset + size
                &&& nal.start_code == start_code
                &&& !parse_nal ==> (nal.nal_type == data@[offset as int] >> 1u8 && *final(self)
                    == *old(self))
            },
    {
        proof {
            assert(data.len() == data@.len());
        }
        let mut nal = NALUnit::empty();
        nal.start = offset;
        nal.end = offset + size;
        nal.decoded_frame_index = self.decoded_index;
        nal.start_code = start_code;
        if !parse_nal {
            nal.nal_type = data[offset] >> 1u8;
            return Ok(nal);
        }
        let payload = nal_payload(data, offset, size);
        let mut bs = bitreader::BitReader::new(payload);
        Self::parse_nal_header(&mut bs, &mut nal)?;
        if nal.nuh_layer_id > 0 {
            return Ok(nal);
        }
        if nal.nal_type == nal::NAL_VPS {
            self.parse_vps(&mut bs)?;
        } else if nal.nal_type == nal::NAL_SPS {
            self.parse_sps(&mut bs)?;
        } else if nal.nal_type == nal::NAL_PPS {
            self.parse_pps(&mut bs)?;
        } else if NALUnit::is_type_slice(nal.nal_type) {
            self.parse_slice(&mut bs, &mut nal)?;
        } else if nal.nal_type == nal::NAL_SEI_SUFFIX || nal.nal_type == nal::NAL_UNSPEC62
            || nal.nal_type == nal::NAL_UNSPEC63 || nal.nal_type == nal::NAL_EOS_NUT
            || nal.nal_type == nal::NAL_EOB_NUT {
            // suffixed to the current access unit; never opens a new one
            self.current_frame.nals.push(nal);
        } else {
            self.add_current_frame();
            nal.decoded_frame_index = self.decoded_index;
            self.current_frame.nals.push(nal);
        }
        if nal.nal_type == nal::NAL_VPS || nal.nal_type == nal::NAL_SPS || nal.nal_type
            == nal::NAL_PPS {
            // a parameter set also closes the current access unit
            self.add_current_frame();
            nal.decoded_frame_index = self.decoded_index;
            self.current_frame.nals.push(nal);
        }
        self.nals.push(nal);
        Ok(nal)
    }

    /// Decode the two-byte NAL header: a forbidden bit that must be zero,
    /// the type, the layer id and the temporal id.  For an end-of-sequence
    /// or end-of-bitstream NAL shorter than nine bits the layer and
    /// temporal fields are absent.
    fn parse_nal_header(bs: &mut bitreader::BitReader, nal: &mut NALUnit) -> (r: Result<
        (),
        HevcError,
    >)
        requires
            old(bs).wf(),
            old(nal).nuh_layer_id < 64,
            old(nal).temporal_id < 8,
        ensures
            final(bs).wf(),
            ({
                let b = old(bs).bytes();
                let c = old(bs).cursor();
                let t = old(bs).total_bits();
                &&& ((r matches Err(HevcError::ForbiddenZeroBit)) <==> (c < t && bit_at(b, c)))
                &&& (r matches Ok(()) ==> {
                    let short = t < c + 16 && (bits_value(b, c + 1, 6) == NAL_EOS_NUT as nat
                        || bits_value(b, c + 1, 6) == NAL_EOB_NUT as nat);
                    &&& !bit_at(b, c)
                    &&& final(nal).nal_type == bits_value(b, c + 1, 6)
                    &&& (short ==> final(nal).nuh_layer_id == old(nal).nuh_layer_id && final(nal).temporal_id == old(nal).temporal_id)
                    &&& (!short ==> {
                        &&& final(nal).nuh_layer_id == bits_value(b, c + 7, 6)
                        &&& bits_value(b, c + 13, 3) >= 1
                        &&& final(nal).temporal_id == bits_value(b, c + 13, 3) - 1
                    })
                })
            }),
            r matches Ok(()) ==> {
                &&& final(nal).nal_type < 64
                &&& final(nal).nuh_layer_id < 64
                &&& final(nal).temporal_id < 8
                &&& final(nal).start == old(nal).start
                &&& final(nal).end == old(nal).end
                &&& final(nal).start_code == old(nal).start_code
                &&& final(nal).decoded_frame_index == old(nal).decoded_frame_index
            },
    {
        proof {
            vstd::arithmetic::power2::lemma2_to64();
        }
        let forbidden = bs.get()?;
        if forbidden {
            return Err(HevcError::ForbiddenZeroBit);
        }
        nal.nal_type = bs.get_n(6)? as u8;
        if bs.available() < 9 && (nal.nal_type == NAL_EOS_NUT || nal.nal_type == NAL_EOB_NUT) {
            // short end-of-sequence or end-of-bitstream payload
        } else {
            nal.nuh_layer_id = bs.get_n(6)? as u8;
            let plus1 = bs.get_n(3)? as u8;
            if plus1 == 0 {
                return Err(HevcError::FieldOutOfRange);
            }
            nal.temporal_id = plus1 - 1;
        }
        Ok(())
    }

    /// Decode a video parameter set and install it with shadowing.
    fn parse_vps(&mut self, bs: &mut bitreader::BitReader) -> (r: Result<(), HevcError>)
        requires
            old(self).wf(),
            old(bs).wf(),
        ensures
            final(self).wf(),
            final(bs).wf(),
            final(self).start_code_spec() == old(self).start_code_spec(),
            r is Ok ==> exists|v: crate::vps::VPSNAL|
                #[trigger] crate::context::vps_apply_rel(
                    old(self).ctx_spec(),
                    final(self).ctx_spec(),
                    v,
                ) && v.vps_id == bits_value(old(bs).bytes(), old(bs).cursor(), 4),
    {
        let vps = crate::vps::VPSNAL::parse(bs)?;
        let ghost decoded = vps;
        self.ctx.apply_vps(vps);
        proof {
            assert forall|i: int| 0 <= i < 16 implies (#[trigger] self.ctx.sps_view()[i]
                matches Some(s) ==> s.wf()) by {
                assert(old(self).ctx_spec().sps_view()[i] matches Some(s) ==> s.wf());
            }
            assert(crate::context::vps_apply_rel(old(self).ctx_spec(), self.ctx, decoded));
        }
        Ok(())
    }

    /// Decode a sequence parameter set and install it with shadowing; an
    /// id past the sixteen-entry table fails with `FieldOutOfRange`.
    fn parse_sps(&mut self, bs: &mut bitreader::BitReader) -> (r: Result<(), HevcError>)
        requires
            old(self).wf(),
            old(bs).wf(),
        ensures
            final(self).wf(),
            final(bs).wf(),
            final(self).start_code_spec() == old(self).start_code_spec(),
            r is Ok ==> exists|s: crate::sps::SPSNAL|
                #[trigger] crate::context::sps_apply_rel(
                    old(self).ctx_spec(),
                    final(self).ctx_spec(),
                    s,
                ) && s.wf() && s.sps_id <= 15,
    {
        let sps = crate::sps::SPSNAL::parse(bs)?;
        if sps.sps_id > 15 {
            return Err(HevcError::FieldOutOfRange);
        }
        let ghost decoded = sps;
        self.ctx.apply_sps(sps);
        proof {
            assert forall|i: int| 0 <= i < 16 implies (#[trigger] self.ctx.sps_view()[i]
                matches Some(s) ==> s.wf()) by {
                assert(old(self).ctx_spec().sps_view()[i] matches Some(s) ==> s.wf());
            }
            assert(crate::context::sps_apply_rel(old(self).ctx_spec(), self.ctx, decoded));
        }
        Ok(())
    }

    /// Decode a picture parameter set and install it; an id past the
    /// sixty-four-entry table fails with `FieldOutOfRange`.
    fn parse_pps(&mut self, bs: &mut bitreader::BitReader) -> (r: Result<(), HevcError>)
        requires
            old(self).wf(),
            old(bs).wf(),
        ensures
            final(self).wf(),
            final(bs).wf(),
            final(self).start_code_spec() == old(self).start_code_spec(),
            r is Ok ==> exists|p: crate::pps::PPSNAL|
                #[trigger] crate::context::pps_apply_rel(
                    old(self).ctx_spec(),
                    final(self).ctx_spec(),
                    p,
                ) && p.pps_id == crate::bitreader::ue_value(old(bs).bytes(), old(bs).cursor()),
    {
        let pps = crate::pps::PPSNAL::parse(bs)?;
        if pps.pps_id > 63 {
            return Err(HevcError::FieldOutOfRange);
        }
        let ghost decoded = pps;
        self.ctx.apply_pps(pps);
        proof {
            assert(crate::context::pps_apply_rel(old(self).ctx_spec(), self.ctx, decoded));
        }
        Ok(())
    }

    /// Decode a slice header and run the sequencer step on it.
    fn parse_slice(&mut self, bs: &mut bitreader::BitReader, nal: &mut NALUnit) -> (r: Result<
        (),
        HevcError,
    >)
        requires
            old(self).wf(),
            old(bs).wf(),
        ensures
            final(self).wf(),
            final(bs).wf(),
            final(self).start_code_spec() == old(self).start_code_spec(),
            final(nal).start == old(nal).start,
            final(nal).end == old(nal).end,
            final(nal).start_code == old(nal).start_code,
            final(nal).nal_type == old(nal).nal_type,
            r is Ok ==> exists|sl: SliceNAL|
                #[trigger] slice_step_rel(*old(self), *final(self), *old(nal), *final(nal), sl)
                    && sl.key_frame == crate::slice::is_irap_type(old(nal).nal_type),
    {
        let ghost mid = *self;
        let slice = SliceNAL::parse(bs, &self.ctx, nal, &mut self.poc_tid0, &mut self.poc)?;
        let ghost mid2 = *self;
        self.handle_slice(nal, slice);
        proof {
            assert(slice_step_rel(mid2, *self, *old(nal), *final(nal), slice));
            assert(slice_step_rel(*old(self), *self, *old(nal), *final(nal), slice));
        }
        Ok(())
    }

    /// Run the frame sequencer on one parsed slice: a second first-slice
    /// closes the access unit being assembled, a key slice re-orders the
    /// frames gathered so far, a first slice is recorded as the new access
    /// unit's first slice, and the NAL joins the current access unit.
    #[verifier::rlimit(100)]
    pub fn handle_slice(&mut self, nal: &mut NALUnit, slice: SliceNAL)
        requires
            old(self).wf(),
        ensures
            final(self).wf(),
            slice_step_rel(*old(self), *final(self), *old(nal), *final(nal), slice),
            final(self).poc_value() == old(self).poc_value(),
            final(self).poc_tid0_value() == old(self).poc_tid0_value(),
    {
        if self.current_frame.first_slice.first_slice_in_pic_flag && slice.first_slice_in_pic_flag {
            nal.decoded_frame_index = self.decoded_index.saturating_add(1);
            self.add_current_frame();
        }
        if slice.key_frame {
            self.reorder_frames();
        }
        if slice.first_slice_in_pic_flag {
            self.current_frame.first_slice = slice;
            self.current_frame.decoded_number = self.decoded_index;
        }
        self.current_frame.nals.push(*nal);
    }

    /// Walk a length-prefixed payload, as carried inside a container
    /// frame: each NAL unit is preceded by a big-endian length of
    /// `nalu_size_length` bytes; zero-length entries are skipped and a
    /// length overrunning the payload ends the walk.
    pub fn parse_length_prefixed(
        &mut self,
        data: &[u8],
        nalu_size_length: usize,
        parse_nals: bool,
    ) -> (r: Result<Vec<NALUnit>, HevcError>)
        requires
            old(self).wf(),
            1 <= nalu_size_length <= 4,
        ensures
            final(self).wf(),
            final(self).start_code_spec() == old(self).start_code_spec(),
            r matches Ok(nals) ==> forall|k: int|
                0 <= k < nals@.len() ==> {
                    &&& (#[trigger] nals@[k]).start_code == NALUStartCode::Length4
                    &&& nalu_size_length <= nals@[k].start < nals@[k].end <= data@.len()
                    &&& (!parse_nals ==> nals@[k].nal_type == data@[nals@[k].start as int] >> 1u8)
                },
    {
        let mut out: Vec<NALUnit> = Vec::new();
        let mut pos: usize = 0;
        let len = data.len();
        while len - pos >= nalu_size_length
            invariant
                self.wf(),
                self.start_code_spec() == old(self).start_code_spec(),
                len == data@.len(),
                1 <= nalu_size_length <= 4,
                pos <= len,
                forall|k: int|
                    0 <= k < out@.len() ==> {
                        &&& (#[trigger] out@[k]).start_code == NALUStartCode::Length4
                        &&& nalu_size_length <= out@[k].start < out@[k].end <= data@.len()
                        &&& (!parse_nals ==> out@[k].nal_type == data@[out@[k].start as int]
                            >> 1u8)
                    },
            decreases len - pos,
        {
            let mut nalu_size64: u64 = 0;
            let mut b: usize = 0;
            while b < nalu_size_length
                invariant
                    b <= nalu_size_length,
                    nalu_size_length <= 4,
                    pos + nalu_size_length <= len,
                    len == data@.len(),
                    b == 0 ==> nalu_size64 == 0,
                    b == 1 ==> nalu_size64 <= 0xFF,
                    b == 2 ==> nalu_size64 <= 0xFFFF,
                    b == 3 ==> nalu_size64 <= 0xFFFFFF,
                    b == 4 ==> nalu_size64 <= 0xFFFFFFFF,
                decreases nalu_size_length - b,
            {
                nalu_size64 = nalu_size64 * 256 + (data[pos + b] as u64);
                b = b + 1;
            }
            pos = pos + nalu_size_length;
            if nalu_size64 == 0 {
                continue ;
            }
            if nalu_size64 > (len - pos) as u64 {
                break ;
            }
            let nalu_size = nalu_size64 as usize;
            let nal = self.parse_nal_inner(
                data,
                pos,
                nalu_size,
                parse_nals,
                NALUStartCode::Length4,
            )?;
            out.push(nal);
            pos = pos + nalu_size;
        }
        Ok(out)
    }
}

} // verus!
