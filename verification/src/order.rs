//! Frames and their order: ascending by index, frames of one index in the
//! order in which they were found.

use crate::frame::{frame_index, frame_index_of};
use vstd::prelude::*;

verus! {

/// A still image that the decoder wrote. Its view is the path at which it is
/// stored; the index that the path gives is kept beside it.
#[derive(Debug)]
pub struct Frame {
    path: String,
    index: u32,
}

impl View for Frame {
    type V = Seq<char>;

    closed spec fn view(&self) -> Seq<char> {
        self.path@
    }
}

impl Frame {
    #[verifier::type_invariant]
    spec fn index_matches_path(self) -> bool {
        self.index == frame_index(self.path@)
    }

    /// The frame stored at `path`.
    pub fn new(path: String) -> (r: Frame)
        ensures
            r@ == path@,
    {
        let index: u32 = frame_index_of(path.as_str());
        Frame { path, index }
    }

    /// Where the frame is stored.
    pub fn path(&self) -> (r: &str)
        ensures
            r@ == self@,
    {
        self.path.as_str()
    }

    /// The index by which the frame is ordered.
    pub fn index(&self) -> (r: u32)
        ensures
            r == frame_index(self@),
    {
        proof {
            use_type_invariant(self);
        }
        self.index
    }
}

/// The paths of `frames`, in their order.
pub open spec fn paths_of(frames: Seq<Frame>) -> Seq<Seq<char>> {
    frames.map_values(|f: Frame| f@)
}

/// No path stands before one of a smaller frame index.
pub open spec fn sorted_by_index(paths: Seq<Seq<char>>) -> bool {
    forall|i: int, j: int|
        0 <= i <= j < paths.len() ==> frame_index(paths[i]) <= frame_index(paths[j])
}

/// The paths of frame index `k`, in the order in which `paths` holds them.
pub open spec fn with_index(paths: Seq<Seq<char>>, k: u32) -> Seq<Seq<char>>
    decreases paths.len(),
{
    if paths.len() == 0 {
        Seq::empty()
    } else if frame_index(paths.last()) == k {
        with_index(paths.drop_last(), k).push(paths.last())
    } else {
        with_index(paths.drop_last(), k)
    }
}

/// `ordered` holds the paths of `found` ascending by frame index, and those
/// of one index in the order that they have in `found`.
pub open spec fn is_ordering_of(ordered: Seq<Seq<char>>, found: Seq<Seq<char>>) -> bool {
    &&& sorted_by_index(ordered)
    &&& forall|k: u32| with_index(ordered, k) == with_index(found, k)
}

/// The paths of one index in a sequence are those in its first part, then
/// those in its second.
pub proof fn lemma_with_index_concat(a: Seq<Seq<char>>, b: Seq<Seq<char>>, k: u32)
    ensures
        with_index(a + b, k) == with_index(a, k) + with_index(b, k),
    decreases b.len(),
{
    if b.len() == 0 {
        assert(a + b =~= a);
        assert(with_index(a, k) + with_index(b, k) =~= with_index(a, k));
    } else {
        assert((a + b).drop_last() =~= a + b.drop_last());
        assert((a + b).last() == b.last());
        lemma_with_index_concat(a, b.drop_last(), k);
        if frame_index(b.last()) == k {
            assert(with_index(a + b, k) =~= with_index(a, k) + with_index(b, k));
        }
    }
}

/// A sequence with no path of index `k` gives none.
pub proof fn lemma_with_index_absent(a: Seq<Seq<char>>, k: u32)
    requires
        forall|i: int| 0 <= i < a.len() ==> frame_index(a[i]) != k,
    ensures
        with_index(a, k) == Seq::<Seq<char>>::empty(),
    decreases a.len(),
{
    if a.len() > 0 {
        lemma_with_index_absent(a.drop_last(), k);
    }
}

/// The paths of index `k` among one path.
pub proof fn lemma_with_index_single(x: Seq<char>, k: u32)
    ensures
        with_index(seq![x], k) == if frame_index(x) == k {
            seq![x]
        } else {
            Seq::<Seq<char>>::empty()
        },
{
    assert(seq![x].drop_last() =~= Seq::<Seq<char>>::empty());
    assert(with_index(Seq::<Seq<char>>::empty(), k) =~= Seq::<Seq<char>>::empty());
    assert(seq![x].last() == x);
    if frame_index(x) == k {
        assert(Seq::<Seq<char>>::empty().push(x) =~= seq![x]);
    }
}

/// Orders frames ascending by index. Frames of one index keep the order in
/// which they were handed in.
pub fn order_frames(frames: Vec<Frame>) -> (r: Vec<Frame>)
    ensures
        is_ordering_of(paths_of(r@), paths_of(frames@)),
        r@.len() == frames@.len(),
        paths_of(r@).to_multiset() == paths_of(frames@).to_multiset(),
{
    let ghost found = paths_of(frames@);
    let mut rest: Vec<Frame> = frames;
    let mut out: Vec<Frame> = Vec::new();
    proof {
        assert(found.subrange(0, found.len() as int) =~= found);
        assert(found.subrange(found.len() as int, found.len() as int) =~= Seq::<
            Seq<char>,
        >::empty());
        assert(paths_of(out@) =~= Seq::<Seq<char>>::empty());
        paths_of(out@).to_multiset_ensures();
        assert(paths_of(out@).to_multiset() =~= vstd::multiset::Multiset::<Seq<char>>::empty());
    }
    while rest.len() > 0
        invariant
            paths_of(rest@) == found.subrange(0, rest@.len() as int),
            rest@.len() <= found.len(),
            out@.len() + rest@.len() == found.len(),
            sorted_by_index(paths_of(out@)),
            forall|k: u32|
                with_index(paths_of(out@), k) == with_index(
                    found.subrange(rest@.len() as int, found.len() as int),
                    k,
                ),
            paths_of(out@).to_multiset().add(paths_of(rest@).to_multiset())
                == found.to_multiset(),
        decreases rest@.len(),
    {
        let ghost before = paths_of(rest@);
        let ghost placed = paths_of(out@);
        let frame: Frame = rest.pop().unwrap();
        let ghost x = frame@;
        let key: u32 = frame.index();
        let mut p: usize = 0;
        while p < out.len() && out[p].index() < key
            invariant
                p <= out@.len(),
                placed == paths_of(out@),
                forall|j: int| 0 <= j < p ==> frame_index(placed[j]) < key,
            decreases out@.len() - p,
        {
            p = p + 1;
        }
        out.insert(p, frame);
        proof {
            let n = rest@.len() as int;
            let now = paths_of(out@);
            let a = placed.subrange(0, p as int);
            let b = placed.subrange(p as int, placed.len() as int);
            let tail = found.subrange(n + 1, found.len() as int);
            assert(before[n] == x);
            assert(paths_of(rest@) =~= before.subrange(0, n));
            assert(placed =~= a + b);
            assert(now =~= placed.insert(p as int, x));
            assert(now =~= (a + seq![x]) + b);
            assert(found.subrange(n, found.len() as int) =~= seq![x] + tail);
            assert(paths_of(rest@) =~= found.subrange(0, n));
            assert forall|i: int, j: int| 0 <= i <= j < now.len() implies frame_index(now[i])
                <= frame_index(now[j]) by {
                if i < p && j > p {
                    assert(now[i] == placed[i]);
                    assert(now[j] == placed[j - 1]);
                } else if i > p {
                    assert(now[i] == placed[i - 1]);
                    assert(now[j] == placed[j - 1]);
                } else if j < p {
                    assert(now[i] == placed[i]);
                    assert(now[j] == placed[j]);
                } else if i == p && j > p {
                    assert(now[j] == placed[j - 1]);
                    assert(frame_index(placed[p as int]) >= key);
                } else if i < p && j == p {
                    assert(now[i] == placed[i]);
                }
            }
            assert forall|k: u32|
                with_index(now, k) == with_index(found.subrange(n, found.len() as int), k) by {
                lemma_with_index_concat(a + seq![x], b, k);
                lemma_with_index_concat(a, seq![x], k);
                lemma_with_index_concat(a, b, k);
                lemma_with_index_concat(seq![x], tail, k);
                lemma_with_index_single(x, k);
                assert(with_index(placed, k) == with_index(tail, k));
                if frame_index(x) == k {
                    lemma_with_index_absent(a, k);
                    assert(with_index(now, k) =~= seq![x] + with_index(placed, k));
                } else {
                    assert(with_index(now, k) =~= with_index(placed, k));
                    assert(Seq::<Seq<char>>::empty() + with_index(tail, k) =~= with_index(
                        tail,
                        k,
                    ));
                }
            }
            assert(before =~= paths_of(rest@).push(x));
            assert(placed.to_multiset().add(before.to_multiset()) == found.to_multiset());
            vstd::seq_lib::to_multiset_build(paths_of(rest@), x);
            vstd::seq_lib::to_multiset_insert(placed, p as int, x);
            assert(now.to_multiset().add(paths_of(rest@).to_multiset()) =~= found.to_multiset());
        }
    }
    proof {
        assert(paths_of(rest@) =~= Seq::<Seq<char>>::empty());
        assert(found.subrange(0, found.len() as int) =~= found);
        paths_of(rest@).to_multiset_ensures();
        assert(paths_of(rest@).to_multiset() =~= vstd::multiset::Multiset::<Seq<char>>::empty());
        assert(paths_of(out@).to_multiset() =~= found.to_multiset());
    }
    out
}

} // verus!
