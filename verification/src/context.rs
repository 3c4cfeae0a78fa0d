//! The parameter-set tables tracked between NAL units.
//!
//! Three tables keyed by small integer ids: sixteen video parameter sets,
//! sixteen sequence parameter sets, sixty-four picture parameter sets.
//! Each entry is either empty or holds one fully parsed set.  At most one
//! set is active per id: writing a set whose id collides with a different
//! existing set evicts the existing set and every set that depends on it,
//! while rewriting an identical set changes nothing.

use vstd::prelude::*;

use crate::pps::{pps_eq_spec, PPSNAL};
use crate::sps::{sps_eq_spec, SPSNAL};
use crate::vps::{vps_eq_spec, VPSNAL};

verus! {

/// Whether the sequence-parameter-set entry `e` depends on the video
/// parameter set with id `vid`.
pub open spec fn sps_depends_on_vps(e: Option<SPSNAL>, vid: u8) -> bool {
    match e {
        Some(s) => s.vps_id == vid,
        None => false,
    }
}

/// Whether the picture-parameter-set entry `e` depends, through the
/// sequence-parameter-set table `sps_table`, on the video parameter set
/// with id `vid`.
pub open spec fn pps_depends_on_vps(
    e: Option<PPSNAL>,
    sps_table: Seq<Option<SPSNAL>>,
    vid: u8,
) -> bool {
    match e {
        Some(p) => p.sps_id < 16 && sps_depends_on_vps(sps_table[p.sps_id as int], vid),
        None => false,
    }
}

/// Whether the picture-parameter-set entry `e` depends on the sequence
/// parameter set with id `sid`.
pub open spec fn pps_depends_on_sps(e: Option<PPSNAL>, sid: u64) -> bool {
    match e {
        Some(p) => p.sps_id == sid,
        None => false,
    }
}

/// How installing the video parameter set `vps` takes the tables of
/// `pre` to those of `post`: the entry of its id is replaced; when a
/// different set occupied that id, every dependent sequence parameter set
/// and, in turn, every dependent picture parameter set is evicted.
pub open spec fn vps_apply_rel(pre: Context, post: Context, vps: VPSNAL) -> bool {
    let evict = match pre.vps_view()[vps.vps_id as int] {
        Some(e) => !vps_eq_spec(e, vps),
        None => false,
    };
    &&& post.vps_view() == pre.vps_view().update(vps.vps_id as int, Some(vps))
    &&& if evict {
        &&& forall|j: int|
            0 <= j < 16 ==> post.sps_view()[j] == (if sps_depends_on_vps(
                pre.sps_view()[j],
                vps.vps_id,
            ) {
                None::<SPSNAL>
            } else {
                pre.sps_view()[j]
            })
        &&& forall|k: int|
            0 <= k < 64 ==> post.pps_view()[k] == (if pps_depends_on_vps(
                pre.pps_view()[k],
                pre.sps_view(),
                vps.vps_id,
            ) {
                None::<PPSNAL>
            } else {
                pre.pps_view()[k]
            })
    } else {
        &&& post.sps_view() == pre.sps_view()
        &&& post.pps_view() == pre.pps_view()
    }
}

/// How installing the sequence parameter set `sps` takes the tables of
/// `pre` to those of `post`: the entry of its id is replaced; when a
/// different set occupied that id, every dependent picture parameter set
/// is evicted.
pub open spec fn sps_apply_rel(pre: Context, post: Context, sps: SPSNAL) -> bool {
    let evict = match pre.sps_view()[sps.sps_id as int] {
        Some(e) => !sps_eq_spec(e, sps),
        None => false,
    };
    &&& post.sps_view() == pre.sps_view().update(sps.sps_id as int, Some(sps))
    &&& post.vps_view() == pre.vps_view()
    &&& if evict {
        forall|k: int|
            0 <= k < 64 ==> post.pps_view()[k] == (if pps_depends_on_sps(
                pre.pps_view()[k],
                sps.sps_id,
            ) {
                None::<PPSNAL>
            } else {
                pre.pps_view()[k]
            })
    } else {
        post.pps_view() == pre.pps_view()
    }
}

/// How installing the picture parameter set `pps` takes the tables of
/// `pre` to those of `post`: the entry of its id is replaced; nothing
/// depends on a picture parameter set.
pub open spec fn pps_apply_rel(pre: Context, post: Context, pps: PPSNAL) -> bool {
    &&& post.pps_view() == pre.pps_view().update(pps.pps_id as int, Some(pps))
    &&& post.vps_view() == pre.vps_view()
    &&& post.sps_view() == pre.sps_view()
}

/// Contextual data tracked between NAL units: the active parameter sets,
/// each table keyed by the set's own id.
pub struct Context {
    vid_param_sets: Vec<Option<VPSNAL>>,
    seq_param_sets: Vec<Option<SPSNAL>>,
    pic_param_sets: Vec<Option<PPSNAL>>,
}

impl Context {
    /// The video-parameter-set table, as a sequence of sixteen entries.
    pub closed spec fn vps_view(self) -> Seq<Option<VPSNAL>> {
        self.vid_param_sets@
    }

    /// The sequence-parameter-set table, as a sequence of sixteen entries.
    pub closed spec fn sps_view(self) -> Seq<Option<SPSNAL>> {
        self.seq_param_sets@
    }

    /// The picture-parameter-set table, as a sequence of sixty-four
    /// entries.
    pub closed spec fn pps_view(self) -> Seq<Option<PPSNAL>> {
        self.pic_param_sets@
    }

    /// The tables have their fixed sizes and every entry sits at the index
    /// of its own id.
    pub open spec fn wf(self) -> bool {
        &&& self.vps_view().len() == 16
        &&& self.sps_view().len() == 16
        &&& self.pps_view().len() == 64
        &&& forall|i: int|
            0 <= i < 16 ==> match #[trigger] self.vps_view()[i] {
                Some(v) => v.vps_id == i,
                None => true,
            }
        &&& forall|i: int|
            0 <= i < 16 ==> match #[trigger] self.sps_view()[i] {
                Some(s) => s.sps_id == i,
                None => true,
            }
        &&& forall|i: int|
            0 <= i < 64 ==> match #[trigger] self.pps_view()[i] {
                Some(p) => p.pps_id == i,
                None => true,
            }
    }

    /// Fresh tables with every entry empty.
    pub fn new() -> (r: Context)
        ensures
            r.wf(),
            forall|i: int| 0 <= i < 16 ==> #[trigger] r.vps_view()[i] is None,
            forall|i: int| 0 <= i < 16 ==> #[trigger] r.sps_view()[i] is None,
            forall|i: int| 0 <= i < 64 ==> #[trigger] r.pps_view()[i] is None,
    {
        let mut vid_param_sets: Vec<Option<VPSNAL>> = Vec::new();
        let mut i: usize = 0;
        while i < 16
            invariant
                i <= 16,
                vid_param_sets@.len() == i,
                forall|j: int| 0 <= j < i ==> #[trigger] vid_param_sets@[j] is None,
            decreases 16 - i,
        {
            vid_param_sets.push(None);
            i = i + 1;
        }
        let mut seq_param_sets: Vec<Option<SPSNAL>> = Vec::new();
        let mut i: usize = 0;
        while i < 16
            invariant
                i <= 16,
                seq_param_sets@.len() == i,
                forall|j: int| 0 <= j < i ==> #[trigger] seq_param_sets@[j] is None,
            decreases 16 - i,
        {
            seq_param_sets.push(None);
            i = i + 1;
        }
        let mut pic_param_sets: Vec<Option<PPSNAL>> = Vec::new();
        let mut i: usize = 0;
        while i < 64
            invariant
                i <= 64,
                pic_param_sets@.len() == i,
                forall|j: int| 0 <= j < i ==> #[trigger] pic_param_sets@[j] is None,
            decreases 64 - i,
        {
            pic_param_sets.push(None);
            i = i + 1;
        }
        Context { vid_param_sets, seq_param_sets, pic_param_sets }
    }

    /// The active video parameter set with the given id, if any.
    pub fn vps_by_id(&self, id: u8) -> (r: Option<&VPSNAL>)
        requires
            self.wf(),
        ensures
            match r {
                Some(v) => id <= 15 && self.vps_view()[id as int] == Some(*v),
                None => id > 15 || self.vps_view()[id as int] is None,
            },
    {
        if id > 15 {
            None
        } else {
            match &self.vid_param_sets[id as usize] {
                Some(v) => Some(v),
                None => None,
            }
        }
    }

    /// The active sequence parameter set with the given id, if any.
    pub fn sps_by_id(&self, id: u64) -> (r: Option<&SPSNAL>)
        requires
            self.wf(),
        ensures
            match r {
                Some(s) => id <= 15 && self.sps_view()[id as int] == Some(*s),
                None => id > 15 || self.sps_view()[id as int] is None,
            },
    {
        if id > 15 {
            None
        } else {
            match &self.seq_param_sets[id as usize] {
                Some(s) => Some(s),
                None => None,
            }
        }
    }

    /// The active picture parameter set with the given id, if any.
    pub fn pps_by_id(&self, id: u64) -> (r: Option<&PPSNAL>)
        requires
            self.wf(),
        ensures
            match r {
                Some(p) => id <= 63 && self.pps_view()[id as int] == Some(*p),
                None => id > 63 || self.pps_view()[id as int] is None,
            },
    {
        if id > 63 {
            None
        } else {
            match &self.pic_param_sets[id as usize] {
                Some(p) => Some(p),
                None => None,
            }
        }
    }

    /// The active video parameter sets, in id order.
    pub fn vps(&self) -> (r: Vec<&VPSNAL>)
        requires
            self.wf(),
        ensures
            r@.len() <= 16,
            forall|k: int|
                0 <= k < r@.len() ==> self.vps_view()[(*#[trigger] r@[k]).vps_id as int] == Some(
                    *r@[k],
                ),
            forall|i: int|
                0 <= i < 16 ==> (#[trigger] self.vps_view()[i] matches Some(v) ==> exists|k: int|
                    0 <= k < r@.len() && *r@[k] == v),
    {
        let mut out: Vec<&VPSNAL> = Vec::new();
        let mut i: usize = 0;
        while i < 16
            invariant
                self.wf(),
                i <= 16,
                out@.len() <= i,
                forall|k: int|
                    0 <= k < out@.len() ==> self.vps_view()[(*#[trigger] out@[k]).vps_id as int]
                        == Some(*out@[k]),
                forall|t: int|
                    0 <= t < i ==> (#[trigger] self.vps_view()[t] matches Some(v) ==> exists|k: int|
                        0 <= k < out@.len() && *out@[k] == v),
            decreases 16 - i,
        {
            let ghost prev = out@;
            match &self.vid_param_sets[i] {
                Some(v) => {
                    out.push(v);
                    proof {
                        assert(*out@[out@.len() - 1] == *v);
                    }
                },
                None => {},
            }
            proof {
                assert forall|t: int|
                    0 <= t < i + 1 implies (#[trigger] self.vps_view()[t] matches Some(x)
                    ==> exists|k: int| 0 <= k < out@.len() && *out@[k] == x) by {
                    match self.vps_view()[t] {
                        Some(x) => {
                            if t < i {
                                let k0 = choose|k: int|
                                    0 <= k < prev.len() && *#[trigger] prev[k] == x;
                                assert(out@[k0] == prev[k0]);
                                assert(*out@[k0] == x);
                            } else {
                                assert(*out@[out@.len() - 1] == x);
                            }
                        },
                        None => {},
                    }
                }
            }
            i = i + 1;
        }
        out
    }

    /// The active sequence parameter sets, in id order.
    pub fn sps(&self) -> (r: Vec<&SPSNAL>)
        requires
            self.wf(),
        ensures
            r@.len() <= 16,
            forall|k: int|
                0 <= k < r@.len() ==> self.sps_view()[(*#[trigger] r@[k]).sps_id as int] == Some(
                    *r@[k],
                ),
            forall|i: int|
                0 <= i < 16 ==> (#[trigger] self.sps_view()[i] matches Some(s) ==> exists|k: int|
                    0 <= k < r@.len() && *r@[k] == s),
    {
        let mut out: Vec<&SPSNAL> = Vec::new();
        let mut i: usize = 0;
        while i < 16
            invariant
                self.wf(),
                i <= 16,
                out@.len() <= i,
                forall|k: int|
                    0 <= k < out@.len() ==> self.sps_view()[(*#[trigger] out@[k]).sps_id as int]
                        == Some(*out@[k]),
                forall|t: int|
                    0 <= t < i ==> (#[trigger] self.sps_view()[t] matches Some(s) ==> exists|k: int|
                        0 <= k < out@.len() && *out@[k] == s),
            decreases 16 - i,
        {
            let ghost prev = out@;
            match &self.seq_param_sets[i] {
                Some(s) => {
                    out.push(s);
                    proof {
                        assert(*out@[out@.len() - 1] == *s);
                    }
                },
                None => {},
            }
            proof {
                assert forall|t: int|
                    0 <= t < i + 1 implies (#[trigger] self.sps_view()[t] matches Some(x)
                    ==> exists|k: int| 0 <= k < out@.len() && *out@[k] == x) by {
                    match self.sps_view()[t] {
                        Some(x) => {
                            if t < i {
                                let k0 = choose|k: int|
                                    0 <= k < prev.len() && *#[trigger] prev[k] == x;
                                assert(out@[k0] == prev[k0]);
                                assert(*out@[k0] == x);
                            } else {
                                assert(*out@[out@.len() - 1] == x);
                            }
                        },
                        None => {},
                    }
                }
            }
            i = i + 1;
        }
        out
    }

    /// The active picture parameter sets, in id order.
    pub fn pps(&self) -> (r: Vec<&PPSNAL>)
        requires
            self.wf(),
        ensures
            r@.len() <= 64,
            forall|k: int|
                0 <= k < r@.len() ==> self.pps_view()[(*#[trigger] r@[k]).pps_id as int] == Some(
                    *r@[k],
                ),
            forall|i: int|
                0 <= i < 64 ==> (#[trigger] self.pps_view()[i] matches Some(p) ==> exists|k: int|
                    0 <= k < r@.len() && *r@[k] == p),
    {
        let mut out: Vec<&PPSNAL> = Vec::new();
        let mut i: usize = 0;
        while i < 64
            invariant
                self.wf(),
                i <= 64,
                out@.len() <= i,
                forall|k: int|
                    0 <= k < out@.len() ==> self.pps_view()[(*#[trigger] out@[k]).pps_id as int]
                        == Some(*out@[k]),
                forall|t: int|
                    0 <= t < i ==> (#[trigger] self.pps_view()[t] matches Some(p) ==> exists|k: int|
                        0 <= k < out@.len() && *out@[k] == p),
            decreases 64 - i,
        {
            let ghost prev = out@;
            match &self.pic_param_sets[i] {
                Some(p) => {
                    out.push(p);
                    proof {
                        assert(*out@[out@.len() - 1] == *p);
                    }
                },
                None => {},
            }
            proof {
                assert forall|t: int|
                    0 <= t < i + 1 implies (#[trigger] self.pps_view()[t] matches Some(x)
                    ==> exists|k: int| 0 <= k < out@.len() && *out@[k] == x) by {
                    match self.pps_view()[t] {
                        Some(x) => {
                            if t < i {
                                let k0 = choose|k: int|
                                    0 <= k < prev.len() && *#[trigger] prev[k] == x;
                                assert(out@[k0] == prev[k0]);
                                assert(*out@[k0] == x);
                            } else {
                                assert(*out@[out@.len() - 1] == x);
                            }
                        },
                        None => {},
                    }
                }
            }
            i = i + 1;
        }
        out
    }

    /// Write `vps` into the entry of its id, replacing whatever was there.
    pub fn put_vid_param_set(&mut self, vps: VPSNAL)
        requires
            old(self).wf(),
            vps.vps_id <= 15,
        ensures
            final(self).wf(),
            final(self).vps_view() == old(self).vps_view().update(vps.vps_id as int, Some(vps)),
            final(self).sps_view() == old(self).sps_view(),
            final(self).pps_view() == old(self).pps_view(),
    {
        let i = vps.vps_id as usize;
        self.vid_param_sets[i] = Some(vps);
    }

    /// Write `sps` into the entry of its id, replacing whatever was there.
    pub fn put_seq_param_set(&mut self, sps: SPSNAL)
        requires
            old(self).wf(),
            sps.sps_id <= 15,
        ensures
            final(self).wf(),
            final(self).sps_view() == old(self).sps_view().update(sps.sps_id as int, Some(sps)),
            final(self).vps_view() == old(self).vps_view(),
            final(self).pps_view() == old(self).pps_view(),
    {
        let i = sps.sps_id as usize;
        self.seq_param_sets[i] = Some(sps);
    }

    /// Write `pps` into the entry of its id, replacing whatever was there.
    pub fn put_pic_param_set(&mut self, pps: PPSNAL)
        requires
            old(self).wf(),
            pps.pps_id <= 63,
        ensures
            final(self).wf(),
            final(self).pps_view() == old(self).pps_view().update(pps.pps_id as int, Some(pps)),
            final(self).vps_view() == old(self).vps_view(),
            final(self).sps_view() == old(self).sps_view(),
    {
        let i = pps.pps_id as usize;
        self.pic_param_sets[i] = Some(pps);
    }

    /// Install a freshly decoded video parameter set.  Rewriting an entry
    /// with an identical set only replaces it; writing a different set
    /// under an occupied id also evicts every sequence parameter set that
    /// names this id and, in turn, every picture parameter set that named
    /// an evicted sequence parameter set.
    pub fn apply_vps(&mut self, vps: VPSNAL)
        requires
            old(self).wf(),
            vps.vps_id <= 15,
        ensures
            final(self).wf(),
            vps_apply_rel(*old(self), *final(self), vps),
            final(self).vps_view() == old(self).vps_view().update(vps.vps_id as int, Some(vps)),
            ({
                let evict = match old(self).vps_view()[vps.vps_id as int] {
                    Some(e) => !vps_eq_spec(e, vps),
                    None => false,
                };
                if evict {
                    &&& forall|j: int|
                        0 <= j < 16 ==> final(self).sps_view()[j] == (if sps_depends_on_vps(
                            old(self).sps_view()[j],
                            vps.vps_id,
                        ) {
                            None::<SPSNAL>
                        } else {
                            old(self).sps_view()[j]
                        })
                    &&& forall|k: int|
                        0 <= k < 64 ==> final(self).pps_view()[k] == (if pps_depends_on_vps(
                            old(self).pps_view()[k],
                            old(self).sps_view(),
                            vps.vps_id,
                        ) {
                            None::<PPSNAL>
                        } else {
                            old(self).pps_view()[k]
                        })
                } else {
                    &&& final(self).sps_view() == old(self).sps_view()
                    &&& final(self).pps_view() == old(self).pps_view()
                }
            }),
    {
        let id = vps.vps_id as usize;
        let evict = match &self.vid_param_sets[id] {
            Some(existing) => !existing.content_eq(&vps),
            None => false,
        };
        if evict {
            let mut j: usize = 0;
            while j < 16
                invariant
                    j <= 16,
                    vps.vps_id <= 15,
                    old(self).wf(),
                    self.vps_view() == old(self).vps_view(),
                    self.sps_view().len() == 16,
                    self.pps_view().len() == 64,
                    forall|t: int|
                        0 <= t < j ==> self.sps_view()[t] == (if sps_depends_on_vps(
                            old(self).sps_view()[t],
                            vps.vps_id,
                        ) {
                            None::<SPSNAL>
                        } else {
                            old(self).sps_view()[t]
                        }),
                    forall|t: int| j <= t < 16 ==> self.sps_view()[t] == old(self).sps_view()[t],
                    forall|k: int|
                        0 <= k < 64 ==> self.pps_view()[k] == (if ({
                            match old(self).pps_view()[k] {
                                Some(p) => p.sps_id < j && sps_depends_on_vps(
                                    old(self).sps_view()[p.sps_id as int],
                                    vps.vps_id,
                                ),
                                None => false,
                            }
                        }) {
                            None::<PPSNAL>
                        } else {
                            old(self).pps_view()[k]
                        }),
                decreases 16 - j,
            {
                let dep = match &self.seq_param_sets[j] {
                    Some(s) => s.vps_id == vps.vps_id,
                    None => false,
                };
                if dep {
                    let mut k: usize = 0;
                    while k < 64
                        invariant
                            k <= 64,
                            j < 16,
                            vps.vps_id <= 15,
                            old(self).wf(),
                            dep == sps_depends_on_vps(old(self).sps_view()[j as int], vps.vps_id),
                            dep,
                            self.vps_view() == old(self).vps_view(),
                            self.sps_view().len() == 16,
                            self.pps_view().len() == 64,
                            forall|t: int|
                                0 <= t < j ==> self.sps_view()[t] == (if sps_depends_on_vps(
                                    old(self).sps_view()[t],
                                    vps.vps_id,
                                ) {
                                    None::<SPSNAL>
                                } else {
                                    old(self).sps_view()[t]
                                }),
                            forall|t: int|
                                j <= t < 16 ==> self.sps_view()[t] == old(self).sps_view()[t],
                            forall|k2: int|
                                0 <= k2 < k ==> self.pps_view()[k2] == (if ({
                                    match old(self).pps_view()[k2] {
                                        Some(p) => (p.sps_id < j && sps_depends_on_vps(
                                            old(self).sps_view()[p.sps_id as int],
                                            vps.vps_id,
                                        )) || p.sps_id == j,
                                        None => false,
                                    }
                                }) {
                                    None::<PPSNAL>
                                } else {
                                    old(self).pps_view()[k2]
                                }),
                            forall|k2: int|
                                k <= k2 < 64 ==> self.pps_view()[k2] == (if ({
                                    match old(self).pps_view()[k2] {
                                        Some(p) => p.sps_id < j && sps_depends_on_vps(
                                            old(self).sps_view()[p.sps_id as int],
                                            vps.vps_id,
                                        ),
                                        None => false,
                                    }
                                }) {
                                    None::<PPSNAL>
                                } else {
                                    old(self).pps_view()[k2]
                                }),
                        decreases 64 - k,
                    {
                        let dep2 = match &self.pic_param_sets[k] {
                            Some(p) => p.sps_id == j as u64,
                            None => false,
                        };
                        if dep2 {
                            self.pic_param_sets[k] = None;
                        }
                        k = k + 1;
                    }
                    self.seq_param_sets[j] = None;
                }
                j = j + 1;
            }
        }
        self.vid_param_sets[id] = Some(vps);
    }

    /// Install a freshly decoded sequence parameter set.  Rewriting an
    /// entry with an identical set only replaces it; writing a different
    /// set under an occupied id also evicts every picture parameter set
    /// that names this id.
    pub fn apply_sps(&mut self, sps: SPSNAL)
        requires
            old(self).wf(),
            sps.sps_id <= 15,
        ensures
            final(self).wf(),
            sps_apply_rel(*old(self), *final(self), sps),
            final(self).sps_view() == old(self).sps_view().update(sps.sps_id as int, Some(sps)),
            final(self).vps_view() == old(self).vps_view(),
            ({
                let evict = match old(self).sps_view()[sps.sps_id as int] {
                    Some(e) => !sps_eq_spec(e, sps),
                    None => false,
                };
                if evict {
                    forall|k: int|
                        0 <= k < 64 ==> final(self).pps_view()[k] == (if pps_depends_on_sps(
                            old(self).pps_view()[k],
                            sps.sps_id,
                        ) {
                            None::<PPSNAL>
                        } else {
                            old(self).pps_view()[k]
                        })
                } else {
                    final(self).pps_view() == old(self).pps_view()
                }
            }),
    {
        let id = sps.sps_id as usize;
        let evict = match &self.seq_param_sets[id] {
            Some(existing) => !existing.content_eq(&sps),
            None => false,
        };
        if evict {
            let mut k: usize = 0;
            while k < 64
                invariant
                    k <= 64,
                    sps.sps_id <= 15,
                    old(self).wf(),
                    self.vps_view() == old(self).vps_view(),
                    self.sps_view() == old(self).sps_view(),
                    self.pps_view().len() == 64,
                    forall|k2: int|
                        0 <= k2 < k ==> self.pps_view()[k2] == (if pps_depends_on_sps(
                            old(self).pps_view()[k2],
                            sps.sps_id,
                        ) {
                            None::<PPSNAL>
                        } else {
                            old(self).pps_view()[k2]
                        }),
                    forall|k2: int| k <= k2 < 64 ==> self.pps_view()[k2] == old(self).pps_view()[k2],
                decreases 64 - k,
            {
                let dep = match &self.pic_param_sets[k] {
                    Some(p) => p.sps_id == sps.sps_id,
                    None => false,
                };
                if dep {
                    self.pic_param_sets[k] = None;
                }
                k = k + 1;
            }
        }
        self.seq_param_sets[id] = Some(sps);
    }

    /// Install a freshly decoded picture parameter set: the entry of its
    /// id is replaced, identical or not; nothing depends on a picture
    /// parameter set.
    pub fn apply_pps(&mut self, pps: PPSNAL)
        requires
            old(self).wf(),
            pps.pps_id <= 63,
        ensures
            final(self).wf(),
            pps_apply_rel(*old(self), *final(self), pps),
            final(self).pps_view() == old(self).pps_view().update(pps.pps_id as int, Some(pps)),
            final(self).vps_view() == old(self).vps_view(),
            final(self).sps_view() == old(self).sps_view(),
    {
        let i = pps.pps_id as usize;
        self.pic_param_sets[i] = Some(pps);
    }
}

impl Default for Context {
    fn default() -> (r: Self)
        ensures
            r.wf(),
            forall|i: int| 0 <= i < 16 ==> #[trigger] r.vps_view()[i] is None,
            forall|i: int| 0 <= i < 16 ==> #[trigger] r.sps_view()[i] is None,
            forall|i: int| 0 <= i < 64 ==> #[trigger] r.pps_view()[i] is None,
    {
        Context::new()
    }
}

} // verus!
