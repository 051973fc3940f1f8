//! A small polygon that lives on the stack, its clipping to a half plane
//! and its triangulation as a fan.  Clipping a convex polygon against a
//! half plane adds at most one vertex; the effects' inputs have at most 4
//! vertices and are clipped at most 8 times, so 16 vertices suffice.
//!
//! The polygon is generic over its vertex type: the effects use window
//! pixel positions with an alpha.
use vstd::prelude::*;

verus! {

/// The most vertices a polygon holds
pub const MAX_PTS: usize = 16;

/// A small polygon that lives on the stack
#[derive(Copy, Debug)]
pub struct Poly<P> {
    pts: [P; MAX_PTS],
    n: usize,
}

/// The triangles of the fan from the first vertex of `pts`:
/// `(pts[0], pts[i], pts[i + 1])` for each `i` in `1..len - 1`
pub open spec fn fan_triangles<P>(pts: Seq<P>) -> Seq<[P; 3]> {
    if pts.len() < 3 {
        Seq::empty()
    } else {
        Seq::new((pts.len() - 2) as nat, |i: int| [pts[0], pts[i + 1], pts[i + 2]])
    }
}

/// The vertex after `i` around a polygon of `n` vertices
pub open spec fn next_vertex(i: int, n: int) -> int {
    if i + 1 < n {
        i + 1
    } else {
        0
    }
}

/// What clipping emits for the edge from vertex `i`: the vertex itself
/// when it is inside the half plane, then the point `cut[i]` where the
/// edge crosses the boundary when its two ends lie on different sides
pub open spec fn clip_edge<P>(pts: Seq<P>, inside: Seq<bool>, cut: Seq<P>, i: int) -> Seq<P> {
    let kept = if inside[i] {
        seq![pts[i]]
    } else {
        Seq::empty()
    };
    if inside[i] != inside[next_vertex(i, pts.len() as int)] {
        kept.push(cut[i])
    } else {
        kept
    }
}

/// What clipping emits for the edges from the first `i` vertices
pub open spec fn clipped_upto<P>(pts: Seq<P>, inside: Seq<bool>, cut: Seq<P>, i: int) -> Seq<P>
    decreases i,
{
    if i <= 0 {
        Seq::empty()
    } else {
        clipped_upto(pts, inside, cut, i - 1) + clip_edge(pts, inside, cut, i - 1)
    }
}

/// The polygon `pts` clipped to a half plane: `inside[i]` tells whether
/// vertex `i` lies in it, and `cut[i]` is where the edge from vertex `i`
/// to the next crosses its boundary
pub open spec fn clipped<P>(pts: Seq<P>, inside: Seq<bool>, cut: Seq<P>) -> Seq<P> {
    clipped_upto(pts, inside, cut, pts.len() as int)
}

/// The first `MAX_PTS` vertices of `s`
pub open spec fn capped<P>(s: Seq<P>) -> Seq<P> {
    if s.len() <= MAX_PTS {
        s
    } else {
        s.take(MAX_PTS as int)
    }
}

/// How many of the first `i` vertices are inside
pub open spec fn count_inside(inside: Seq<bool>, i: int) -> nat
    decreases i,
{
    if i <= 0 {
        0
    } else {
        count_inside(inside, i - 1) + if inside[i - 1] {
            1nat
        } else {
            0nat
        }
    }
}

/// How many times the side changes from one vertex to the next, going
/// along the first `i` vertices (not round from the last to the first)
pub open spec fn side_changes(inside: Seq<bool>, i: int) -> nat
    decreases i,
{
    if i <= 0 {
        0
    } else {
        side_changes(inside, i - 1) + if i < inside.len() && inside[i - 1] != inside[i] {
            1nat
        } else {
            0nat
        }
    }
}

/// The vertices inside the half plane form a single run around the
/// polygon, as they do for a convex polygon: going along the vertices
/// the side changes at most twice
pub open spec fn one_run(inside: Seq<bool>) -> bool {
    side_changes(inside, inside.len() as int) <= 2
}

impl<P> Poly<P> {
    #[verifier::type_invariant]
    spec fn fits(self) -> bool {
        self.n <= MAX_PTS
    }

    /// The vertices, in order
    pub closed spec fn view(self) -> Seq<P> {
        self.pts@.take(self.n as int)
    }

    /// The vertices after pushing `pt`: pushes beyond `MAX_PTS` are dropped
    pub open spec fn pushed(pts: Seq<P>, pt: P) -> Seq<P> {
        if pts.len() < MAX_PTS {
            pts.push(pt)
        } else {
            pts
        }
    }
}

impl<P: Copy> Clone for Poly<P> {
    fn clone(&self) -> (r: Self)
        ensures
            r.view() == self.view(),
    {
        proof {
            use_type_invariant(self);
        }
        Poly { pts: self.pts, n: self.n }
    }
}

impl<P: Copy> Poly<P> {
    /// An empty polygon; `filler` fills the unused slots
    pub fn empty(filler: P) -> (r: Self)
        ensures
            r.view() == Seq::<P>::empty(),
    {
        Poly { pts: [filler; MAX_PTS], n: 0 }
    }

    /// The polygon with the first `MAX_PTS` vertices of `src`
    pub fn new(filler: P, src: &[P]) -> (r: Self)
        ensures
            r.view() == src@.take(if src@.len() <= MAX_PTS { src@.len() as int } else { MAX_PTS as int }),
    {
        let mut p = Self::empty(filler);
        let mut i: usize = 0;
        while i < src.len()
            invariant
                i <= src@.len(),
                p.view() == src@.take(if i <= MAX_PTS { i as int } else { MAX_PTS as int }),
            decreases src@.len() - i,
        {
            p.push(src[i]);
            proof {
                if i < MAX_PTS {
                    assert(src@.take(i + 1) == src@.take(i as int).push(src@[i as int]));
                }
            }
            i = i + 1;
        }
        p
    }

    /// Appends `pt` unless the polygon is full
    pub fn push(&mut self, pt: P)
        ensures
            final(self).view() == Self::pushed(old(self).view(), pt),
    {
        proof {
            use_type_invariant(&*self);
        }
        if self.n < MAX_PTS {
            let n = self.n;
            self.pts[n] = pt;
            self.n = n + 1;
            proof {
                assert(self.pts@.take((n + 1) as int) =~= old(self).pts@.take(n as int).push(pt));
            }
        }
    }

    /// The number of vertices
    pub fn len(&self) -> (r: usize)
        ensures
            r == self.view().len(),
            r <= MAX_PTS,
    {
        proof {
            use_type_invariant(self);
        }
        self.n
    }

    /// The vertex at `i`
    pub fn get(&self, i: usize) -> (r: P)
        requires
            i < self.view().len(),
        ensures
            r == self.view()[i as int],
    {
        proof {
            use_type_invariant(self);
        }
        self.pts[i]
    }

    pub fn as_slice(&self) -> (r: &[P])
        ensures
            r@ == self.view(),
    {
        proof {
            use_type_invariant(self);
        }
        vstd::slice::slice_subrange(self.pts.as_slice(), 0, self.n)
    }

    /// The part of the polygon inside a half plane: `inside[i]` tells
    /// whether vertex `i` lies in it, and `cut[i]` is the point where the
    /// edge from vertex `i` to the next crosses its boundary (only read
    /// for edges whose ends lie on different sides).  Going round the
    /// polygon, each inside vertex is kept, followed by the crossing
    /// point of its edge; vertices beyond `MAX_PTS` are dropped.
    pub fn clip(&self, inside: &[bool], cut: &[P]) -> (r: Self)
        requires
            inside@.len() == self.view().len(),
            cut@.len() == self.view().len(),
        ensures
            r.view() == capped(clipped(self.view(), inside@, cut@)),
            one_run(inside@) && self.view().len() < MAX_PTS ==> r.view() == clipped(
                self.view(),
                inside@,
                cut@,
            ) && r.view().len() <= self.view().len() + 1,
    {
        proof {
            use_type_invariant(self);
            clipping_adds_at_most_one_vertex(self.view(), inside@, cut@);
        }
        let n = self.n;
        let mut out = Self::empty(self.pts[0]);
        let mut i: usize = 0;
        while i < n
            invariant
                n == self.n,
                n == self.view().len(),
                n <= MAX_PTS,
                i <= n,
                inside@.len() == n,
                cut@.len() == n,
                out.view() == capped(clipped_upto(self.view(), inside@, cut@, i as int)),
            decreases n - i,
        {
            let ghost v = self.view();
            let ghost before = clipped_upto(v, inside@, cut@, i as int);
            let next = if i + 1 < n {
                i + 1
            } else {
                0
            };
            assert(v[i as int] == self.pts@[i as int]);
            let ghost kept = if inside@[i as int] {
                before.push(v[i as int])
            } else {
                before
            };
            if inside[i] {
                proof {
                    lemma_capped_push(before, v[i as int]);
                }
                out.push(self.pts[i]);
            }
            if inside[i] != inside[next] {
                proof {
                    lemma_capped_push(kept, cut@[i as int]);
                }
                out.push(cut[i]);
            }
            proof {
                assert(clipped_upto(v, inside@, cut@, i + 1) == before + clip_edge(
                    v,
                    inside@,
                    cut@,
                    i as int,
                ));
                if inside@[i as int] != inside@[next as int] {
                    assert(before + clip_edge(v, inside@, cut@, i as int) =~= kept.push(
                        cut@[i as int],
                    ));
                } else {
                    assert(before + clip_edge(v, inside@, cut@, i as int) =~= kept);
                }
            }
            i = i + 1;
        }
        out
    }

    /// Appends the triangles of the fan from the first vertex to `tris`
    pub fn fan(&self, tris: &mut Vec<[P; 3]>)
        ensures
            final(tris)@ == old(tris)@ + fan_triangles(self.view()),
    {
        proof {
            use_type_invariant(self);
        }
        let n = self.n;
        let end = if n >= 1 { n - 1 } else { 0 };
        let mut i: usize = 1;
        while i < end
            invariant
                n == self.n,
                n == self.view().len(),
                n <= MAX_PTS,
                end == (if n >= 1 { n - 1 } else { 0 }),
                1 <= i,
                i <= end || i == 1,
                tris@ == old(tris)@ + fan_triangles(self.view()).take(i - 1),
            decreases end - i,
        {
            let t = [self.pts[0], self.pts[i], self.pts[i + 1]];
            tris.push(t);
            proof {
                let v = self.view();
                assert(v.len() >= 3);
                assert(v[0] == self.pts@[0] && v[i as int] == self.pts@[i as int] && v[i + 1]
                    == self.pts@[i + 1]);
                assert(fan_triangles(v)[i - 1] =~= t);
                assert(fan_triangles(self.view()).take(i as int) =~= fan_triangles(
                    self.view(),
                ).take(i - 1).push(t));
            }
            i = i + 1;
        }
        proof {
            let f = fan_triangles(self.view());
            if n >= 3 {
                assert(i == n - 1);
                assert(f.len() == n - 2);
                assert(f.take(i - 1) =~= f);
            } else {
                assert(f.len() == 0);
                assert(i == 1);
                assert(f.take(i - 1) =~= f);
            }
        }
    }
}

proof fn lemma_clipped_len<P>(pts: Seq<P>, inside: Seq<bool>, cut: Seq<P>, i: int)
    requires
        inside.len() == pts.len(),
        0 <= i <= pts.len(),
    ensures
        clipped_upto(pts, inside, cut, i).len() == count_inside(inside, i) + side_changes(
            inside,
            i,
        ) + if i == pts.len() && i > 0 && inside[i - 1] != inside[0] {
            1int
        } else {
            0int
        },
    decreases i,
{
    if i > 0 {
        lemma_clipped_len(pts, inside, cut, i - 1);
    }
}

proof fn lemma_side_parity(inside: Seq<bool>, j: int)
    requires
        0 <= j < inside.len(),
    ensures
        (inside[j] == inside[0]) <==> side_changes(inside, j) % 2 == 0,
    decreases j,
{
    if j > 0 {
        lemma_side_parity(inside, j - 1);
    }
}

proof fn lemma_changes_monotone(inside: Seq<bool>, i: int, k: int)
    requires
        0 <= i <= k,
    ensures
        side_changes(inside, i) <= side_changes(inside, k),
    decreases k,
{
    if i < k {
        lemma_changes_monotone(inside, i, k - 1);
    }
}

proof fn lemma_count_bound(inside: Seq<bool>, i: int)
    requires
        0 <= i,
    ensures
        count_inside(inside, i) <= i,
    decreases i,
{
    if i > 0 {
        lemma_count_bound(inside, i - 1);
    }
}

proof fn lemma_count_missing(inside: Seq<bool>, i: int, j: int)
    requires
        0 <= j < i,
        !inside[j],
    ensures
        count_inside(inside, i) + 1 <= i,
    decreases i,
{
    if j == i - 1 {
        lemma_count_bound(inside, i - 1);
    } else {
        lemma_count_missing(inside, i - 1, j);
    }
}

proof fn change_witness(inside: Seq<bool>, i: int) -> (j: int)
    requires
        side_changes(inside, i) > 0,
    ensures
        0 <= j,
        j + 1 < inside.len(),
        inside[j] != inside[j + 1],
    decreases i,
{
    if i > 0 && i < inside.len() && inside[i - 1] != inside[i] {
        i - 1
    } else {
        change_witness(inside, i - 1)
    }
}

proof fn lemma_count_all(inside: Seq<bool>, i: int, v: bool)
    requires
        0 <= i <= inside.len(),
        forall|k: int| 0 <= k < inside.len() ==> inside[k] == v,
    ensures
        count_inside(inside, i) == if v {
            i
        } else {
            0
        },
    decreases i,
{
    if i > 0 {
        lemma_count_all(inside, i - 1, v);
    }
}

proof fn lemma_clipped_all_inside<P>(pts: Seq<P>, inside: Seq<bool>, cut: Seq<P>, i: int)
    requires
        inside.len() == pts.len(),
        0 <= i <= pts.len(),
        forall|k: int| 0 <= k < inside.len() ==> inside[k],
    ensures
        clipped_upto(pts, inside, cut, i) == pts.take(i),
    decreases i,
{
    if i > 0 {
        lemma_clipped_all_inside(pts, inside, cut, i - 1);
        assert(inside[next_vertex(i - 1, pts.len() as int)]);
        assert(pts.take(i) =~= pts.take(i - 1).push(pts[i - 1]));
        assert(clip_edge(pts, inside, cut, i - 1) =~= seq![pts[i - 1]]);
    }
}

proof fn lemma_clipped_all_outside<P>(pts: Seq<P>, inside: Seq<bool>, cut: Seq<P>, i: int)
    requires
        inside.len() == pts.len(),
        0 <= i <= pts.len(),
        forall|k: int| 0 <= k < inside.len() ==> !inside[k],
    ensures
        clipped_upto(pts, inside, cut, i).len() == 0,
    decreases i,
{
    if i > 0 {
        lemma_clipped_all_outside(pts, inside, cut, i - 1);
        assert(!inside[next_vertex(i - 1, pts.len() as int)]);
    }
}

proof fn lemma_capped_push<P>(s: Seq<P>, a: P)
    ensures
        capped(s.push(a)) == Poly::<P>::pushed(capped(s), a),
{
    if s.len() >= MAX_PTS {
        assert(s.push(a).take(MAX_PTS as int) =~= s.take(MAX_PTS as int));
    }
}

/// Clipping a polygon to a half plane adds at most one vertex when the
/// vertices inside form a single run, as they do for a convex polygon;
/// a polygon wholly inside is kept as it is, and one wholly outside
/// vanishes.
pub proof fn clipping_adds_at_most_one_vertex<P>(pts: Seq<P>, inside: Seq<bool>, cut: Seq<P>)
    requires
        inside.len() == pts.len(),
    ensures
        one_run(inside) ==> clipped(pts, inside, cut).len() <= pts.len() + 1,
        (forall|k: int| 0 <= k < inside.len() ==> inside[k]) ==> clipped(pts, inside, cut) == pts,
        (forall|k: int| 0 <= k < inside.len() ==> !inside[k]) ==> clipped(pts, inside, cut).len()
            == 0,
{
    let n = pts.len() as int;
    if forall|k: int| 0 <= k < inside.len() ==> inside[k] {
        lemma_clipped_all_inside(pts, inside, cut, n);
        assert(pts.take(n) =~= pts);
    }
    if forall|k: int| 0 <= k < inside.len() ==> !inside[k] {
        lemma_clipped_all_outside(pts, inside, cut, n);
    }
    if one_run(inside) && n > 0 {
        lemma_clipped_len(pts, inside, cut, n);
        let c = side_changes(inside, n);
        assert(c == side_changes(inside, n - 1));
        lemma_side_parity(inside, n - 1);
        if c == 0 {
            assert forall|k: int| 0 <= k < n implies #[trigger] inside[k] == inside[0] by {
                lemma_changes_monotone(inside, k, n);
                lemma_side_parity(inside, k);
            }
            lemma_count_all(inside, n, inside[0]);
        } else {
            let j = change_witness(inside, n);
            if !inside[j] {
                lemma_count_missing(inside, n, j);
            } else {
                lemma_count_missing(inside, n, j + 1);
            }
        }
    }
}

/// `pts` clipped to one half plane after the other: `insides[k]` and
/// `cuts[k]` describe the `k`-th half plane for the polygon that the
/// earlier clips left
pub open spec fn clipped_repeatedly<P>(pts: Seq<P>, insides: Seq<Seq<bool>>, cuts: Seq<Seq<P>>) -> Seq<P>
    decreases insides.len(),
{
    if insides.len() == 0 || cuts.len() == 0 {
        pts
    } else {
        clipped(
            clipped_repeatedly(pts, insides.drop_last(), cuts.drop_last()),
            insides.last(),
            cuts.last(),
        )
    }
}

/// Clipping a convex polygon again and again adds at most one vertex
/// per clip: a polygon of at most 4 vertices clipped at most 8 times
/// never needs more than `MAX_PTS` vertices.
pub proof fn repeated_clips_fit<P>(pts: Seq<P>, insides: Seq<Seq<bool>>, cuts: Seq<Seq<P>>)
    requires
        insides.len() == cuts.len(),
        forall|k: int|
            0 <= k < insides.len() ==> #[trigger] one_run(insides[k]) && insides[k].len()
                == clipped_repeatedly(pts, insides.take(k), cuts.take(k)).len(),
    ensures
        clipped_repeatedly(pts, insides, cuts).len() <= pts.len() + insides.len(),
        pts.len() <= 4 && insides.len() <= 8 ==> clipped_repeatedly(pts, insides, cuts).len()
            < MAX_PTS,
    decreases insides.len(),
{
    if insides.len() > 0 {
        let m = insides.len() - 1;
        let (ins, cs) = (insides.drop_last(), cuts.drop_last());
        assert forall|k: int| 0 <= k < ins.len() implies #[trigger] one_run(ins[k]) && ins[k].len()
            == clipped_repeatedly(pts, ins.take(k), cs.take(k)).len() by {
            assert(ins.take(k) =~= insides.take(k));
            assert(cs.take(k) =~= cuts.take(k));
            assert(ins[k] == insides[k]);
            assert(one_run(insides[k]));
        }
        repeated_clips_fit(pts, ins, cs);
        assert(insides.take(m) =~= ins);
        assert(cuts.take(m) =~= cs);
        assert(one_run(insides[m]));
        assert(insides.last() == insides[m]);
        clipping_adds_at_most_one_vertex(
            clipped_repeatedly(pts, ins, cs),
            insides.last(),
            cuts.last(),
        );
    }
}

/// A polygon never holds more than `MAX_PTS` vertices, and pushing onto
/// a full polygon leaves it unchanged.
pub proof fn capacity_is_respected<P>(pts: Seq<P>, pt: P)
    requires
        pts.len() <= MAX_PTS,
    ensures
        Poly::<P>::pushed(pts, pt).len() <= MAX_PTS,
        pts.len() == MAX_PTS ==> Poly::<P>::pushed(pts, pt) == pts,
        pts.len() < MAX_PTS ==> Poly::<P>::pushed(pts, pt).last() == pt,
{
}

/// A fan covers a polygon of `n >= 3` vertices with `n - 2` triangles
/// that all share the first vertex, and a smaller polygon with none.
pub proof fn fan_shape<P>(pts: Seq<P>)
    ensures
        pts.len() >= 3 ==> fan_triangles(pts).len() == pts.len() - 2,
        pts.len() < 3 ==> fan_triangles(pts).len() == 0,
        forall|i: int| 0 <= i < fan_triangles(pts).len() ==> #[trigger] fan_triangles(pts)[i][0] == pts[0],
{
}

} // verus!
