//! Canonical path-segment decomposition of a request path. The dispatch
//! pipeline performs this decomposition exactly once per request and stores
//! the result in the context for any downstream routing collaborator.

use vstd::prelude::*;

verus! {

/// The path separator byte, `'/'`.
pub open spec fn sep() -> u8 {
    47u8
}

/// The length of the leading run of non-separator bytes of `p`.
pub open spec fn run_len(p: Seq<u8>) -> int
    decreases p.len(),
{
    if p.len() == 0 || p[0] == sep() {
        0
    } else {
        1 + run_len(p.subrange(1, p.len() as int))
    }
}

/// The leading run is never longer than the path, and is non-empty exactly
/// when the path starts with a non-separator byte.
pub proof fn lemma_run_len_bounds(p: Seq<u8>)
    ensures
        0 <= run_len(p) <= p.len(),
        p.len() > 0 && p[0] != sep() ==> run_len(p) >= 1,
    decreases p.len(),
{
    if p.len() == 0 || p[0] == sep() {
    } else {
        lemma_run_len_bounds(p.subrange(1, p.len() as int));
    }
}

/// The maximal non-empty runs of non-separator bytes of `p`, in order:
/// the canonical segment decomposition of a request path.
pub open spec fn path_segments(p: Seq<u8>) -> Seq<Seq<u8>>
    decreases p.len(),
    via path_segments_decreases
{
    if p.len() == 0 {
        Seq::<Seq<u8>>::empty()
    } else if p[0] == sep() {
        path_segments(p.subrange(1, p.len() as int))
    } else {
        seq![p.subrange(0, run_len(p))] + path_segments(p.subrange(run_len(p), p.len() as int))
    }
}

#[via_fn]
proof fn path_segments_decreases(p: Seq<u8>) {
    lemma_run_len_bounds(p);
}

/// A run of `k` non-separator bytes that ends at a separator or at the end
/// of the path is exactly the leading run.
proof fn lemma_run_len_exact(p: Seq<u8>, k: int)
    requires
        0 <= k <= p.len(),
        forall|j: int| 0 <= j < k ==> p[j] != sep(),
        k == p.len() || p[k] == sep(),
    ensures
        run_len(p) == k,
    decreases k,
{
    if k == 0 {
    } else {
        let q = p.subrange(1, p.len() as int);
        assert(forall|j: int| 0 <= j < k - 1 ==> q[j] != sep());
        lemma_run_len_exact(q, k - 1);
    }
}

/// The segment decomposition, computed.
#[derive(PartialEq, Eq, Debug)]
pub struct PathSegments {
    pub segments: Vec<Vec<u8>>,
}

impl View for PathSegments {
    type V = Seq<Seq<u8>>;

    open spec fn view(&self) -> Seq<Seq<u8>> {
        Seq::new(self.segments@.len(), |i: int| self.segments@[i]@)
    }
}

impl PathSegments {
    /// Decomposes `path` into its canonical segments.
    pub fn new(path: &Vec<u8>) -> (r: PathSegments)
        ensures
            r@ == path_segments(path@),
    {
        let ghost p = path@;
        let mut segments: Vec<Vec<u8>> = Vec::new();
        let mut i: usize = 0;
        proof {
            assert(p.subrange(0, p.len() as int) =~= p);
        }
        while i < path.len()
            invariant
                i <= path.len(),
                p == path@,
                path_segments(p) == Seq::new(segments@.len(), |k: int| segments@[k]@)
                    + path_segments(p.subrange(i as int, p.len() as int)),
            decreases path.len() - i,
        {
            let ghost rest = p.subrange(i as int, p.len() as int);
            if path[i] == 47u8 {
                proof {
                    assert(rest.subrange(1, rest.len() as int)
                        =~= p.subrange(i + 1, p.len() as int));
                }
                i = i + 1;
            } else {
                let start = i;
                let mut seg: Vec<u8> = Vec::new();
                while i < path.len() && path[i] != 47u8
                    invariant
                        start <= i <= path.len(),
                        p == path@,
                        forall|j: int| start <= j < i ==> p[j] != sep(),
                        seg@ == p.subrange(start as int, i as int),
                    decreases path.len() - i,
                {
                    let ghost sp = seg@;
                    seg.push(path[i]);
                    proof {
                        assert(sp.push(p[i as int]) =~= p.subrange(start as int, i + 1));
                    }
                    i = i + 1;
                }
                proof {
                    assert(forall|j: int| 0 <= j < i - start ==> rest[j] != sep());
                    assert((i as int) - (start as int) == rest.len() || rest[i - start] == sep());
                    lemma_run_len_exact(rest, i - start);
                    assert(rest.subrange(0, run_len(rest)) =~= p.subrange(start as int, i as int));
                    assert(rest.subrange(run_len(rest), rest.len() as int)
                        =~= p.subrange(i as int, p.len() as int));
                }
                let ghost segs_pre = Seq::new(segments@.len(), |k: int| segments@[k]@);
                segments.push(seg);
                proof {
                    assert(Seq::new(segments@.len(), |k: int| segments@[k]@)
                        =~= segs_pre.push(seg@));
                    assert(path_segments(rest)
                        == seq![seg@] + path_segments(p.subrange(i as int, p.len() as int)));
                    assert(segs_pre.push(seg@) =~= segs_pre + seq![seg@]);
                    assert(segs_pre + seq![seg@] + path_segments(p.subrange(i as int, p.len() as int))
                        =~= segs_pre + (seq![seg@] + path_segments(p.subrange(i as int, p.len() as int))));
                }
            }
        }
        proof {
            assert(p.subrange(p.len() as int, p.len() as int) =~= Seq::<u8>::empty());
            assert(path_segments(p) =~= Seq::new(segments@.len(), |k: int| segments@[k]@));
        }
        PathSegments { segments }
    }

    /// The number of segments.
    pub fn len(&self) -> (r: usize)
        ensures
            r == self@.len(),
    {
        self.segments.len()
    }

    /// A borrow of the segment at `i`.
    pub fn segment(&self, i: usize) -> (r: &Vec<u8>)
        requires
            i < self@.len(),
        ensures
            r@ == self@[i as int],
    {
        &self.segments[i]
    }
}

} // verus!
