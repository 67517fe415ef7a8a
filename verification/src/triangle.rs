//! An unordered three-vertex shape with order-independent equality and
//! hashing.
//!
//! Two triangles are equal exactly when their vertex triples, each
//! sorted by the point total order, agree element-wise; the hash is
//! computed from the sorted triple, so equal triangles always hash
//! alike. Degenerate triangles (coincident or collinear vertices) are
//! representable and are not rejected.

use vstd::prelude::*;

use crate::point::Point;
use crate::point::PointOrder;
use crate::point::point_le;
use crate::point::point_lt;
use crate::point::point_hash;
use crate::point::lemma_point_order_trichotomy;
use crate::point::lemma_point_order_transitive;

verus! {

/// A triangle given by three vertex points, in any order.
#[derive(Clone, Copy, Debug)]
pub struct Triangle {
    pub a: Point,
    pub b: Point,
    pub c: Point,
}

/// The given triple sorted into non-decreasing point order.
pub open spec fn spec_sort3(p: Point, q: Point, r: Point) -> (Point, Point, Point) {
    if point_le(p, q) {
        if point_le(q, r) {
            (p, q, r)
        } else if point_le(p, r) {
            (p, r, q)
        } else {
            (r, p, q)
        }
    } else {
        if point_le(p, r) {
            (q, p, r)
        } else if point_le(q, r) {
            (q, r, p)
        } else {
            (r, q, p)
        }
    }
}

/// A triple is sorted when its elements are in non-decreasing order.
pub open spec fn sorted3(u: (Point, Point, Point)) -> bool {
    point_le(u.0, u.1) && point_le(u.1, u.2)
}

/// The two triples hold the same vertices, as multisets: one is a
/// positional permutation of the other.
pub open spec fn same_vertices(s: (Point, Point, Point), o: (Point, Point, Point)) -> bool {
    ||| (s.0 == o.0 && s.1 == o.1 && s.2 == o.2)
    ||| (s.0 == o.0 && s.1 == o.2 && s.2 == o.1)
    ||| (s.0 == o.1 && s.1 == o.0 && s.2 == o.2)
    ||| (s.0 == o.1 && s.1 == o.2 && s.2 == o.0)
    ||| (s.0 == o.2 && s.1 == o.0 && s.2 == o.1)
    ||| (s.0 == o.2 && s.1 == o.1 && s.2 == o.0)
}

/// The vertex triple of a triangle, in the order it was given.
pub open spec fn vertices(t: Triangle) -> (Point, Point, Point) {
    (t.a, t.b, t.c)
}

/// The canonical form of a triangle: its vertices in sorted order.
pub open spec fn canon(t: Triangle) -> (Point, Point, Point) {
    spec_sort3(t.a, t.b, t.c)
}

/// Canonical equality of triangles: the sorted vertex triples agree.
pub open spec fn tri_eq(t1: Triangle, t2: Triangle) -> bool {
    canon(t1) == canon(t2)
}

/// The hash of a triangle: the point hashes of the sorted vertex
/// triple, each rotated to its position and folded together.
pub open spec fn tri_hash(t: Triangle) -> u64 {
    let s = canon(t);
    let h0 = point_hash(s.0);
    let h1 = point_hash(s.1);
    let h2 = point_hash(s.2);
    h0 ^ ((h1 << 21) | (h1 >> 43)) ^ ((h2 << 42) | (h2 >> 22))
}

/// Sorting yields a sorted rearrangement of the given triple.
pub proof fn lemma_sort3_sorted_perm(p: Point, q: Point, r: Point)
    ensures
        sorted3(spec_sort3(p, q, r)),
        same_vertices(spec_sort3(p, q, r), (p, q, r)),
{
    lemma_point_order_trichotomy(p, q);
    lemma_point_order_trichotomy(q, r);
    lemma_point_order_trichotomy(p, r);
    lemma_point_order_transitive(p, q, r);
    lemma_point_order_transitive(q, r, p);
    lemma_point_order_transitive(r, p, q);
    lemma_point_order_transitive(q, p, r);
    lemma_point_order_transitive(r, q, p);
    lemma_point_order_transitive(p, r, q);
}

/// Two sorted triples holding the same vertices are identical: the
/// sorted form is a canonical representative of the vertex multiset.
pub proof fn lemma_sorted_same_vertices_unique(u: (Point, Point, Point), v: (Point, Point, Point))
    requires
        sorted3(u),
        sorted3(v),
        same_vertices(u, v),
    ensures
        u == v,
{
    lemma_point_order_trichotomy(u.0, u.1);
    lemma_point_order_trichotomy(u.1, u.2);
    lemma_point_order_trichotomy(u.0, u.2);
    lemma_point_order_trichotomy(v.0, v.1);
    lemma_point_order_trichotomy(v.1, v.2);
    lemma_point_order_trichotomy(v.0, v.2);
    lemma_point_order_transitive(u.0, u.1, u.2);
    lemma_point_order_transitive(v.0, v.1, v.2);
}

/// Triangles are canonically equal exactly when their vertex triples
/// hold the same vertices, in whatever order.
pub proof fn lemma_tri_eq_same_vertices(t1: Triangle, t2: Triangle)
    ensures
        tri_eq(t1, t2) <==> same_vertices(vertices(t1), vertices(t2)),
{
    lemma_sort3_sorted_perm(t1.a, t1.b, t1.c);
    lemma_sort3_sorted_perm(t2.a, t2.b, t2.c);
    if tri_eq(t1, t2) {
        assert(same_vertices(vertices(t1), vertices(t2)));
    }
    if same_vertices(vertices(t1), vertices(t2)) {
        assert(same_vertices(canon(t1), canon(t2)));
        lemma_sorted_same_vertices_unique(canon(t1), canon(t2));
    }
}

/// Rearranging the vertices of a triangle yields an equal triangle
/// with an equal hash.
pub proof fn lemma_triangle_permutation_invariant(t1: Triangle, t2: Triangle)
    requires
        same_vertices(vertices(t1), vertices(t2)),
    ensures
        tri_eq(t1, t2),
        tri_hash(t1) == tri_hash(t2),
{
    lemma_tri_eq_same_vertices(t1, t2);
}

impl Triangle {
    /// Builds a triangle from any three points; coincident or collinear
    /// points are accepted (a documented geometric anomaly, not an
    /// error).
    pub fn new(a: Point, b: Point, c: Point) -> (t: Triangle)
        ensures
            t == (Triangle { a, b, c }),
    {
        Triangle { a, b, c }
    }

    /// Canonical equality: both vertex triples are sorted and compared
    /// element-wise, so vertex order is irrelevant.
    pub fn equals(&self, other: &Triangle) -> (r: bool)
        ensures
            r == tri_eq(*self, *other),
    {
        let s = sort3(self.a, self.b, self.c);
        let o = sort3(other.a, other.b, other.c);
        s.0 == o.0 && s.1 == o.1 && s.2 == o.2
    }

    /// A hash of the sorted vertex triple, so canonically equal
    /// triangles always hash alike.
    pub fn hash64(&self) -> (h: u64)
        ensures
            h == tri_hash(*self),
    {
        let s = sort3(self.a, self.b, self.c);
        let h0 = s.0.hash64();
        let h1 = s.1.hash64();
        let h2 = s.2.hash64();
        h0 ^ ((h1 << 21) | (h1 >> 43)) ^ ((h2 << 42) | (h2 >> 22))
    }

    /// The three undirected edges of the triangle, derived from the
    /// vertex triple.
    pub fn edges(&self) -> (e: Vec<(Point, Point)>)
        ensures
            e@ == seq![(self.a, self.b), (self.b, self.c), (self.c, self.a)],
    {
        let mut e: Vec<(Point, Point)> = Vec::new();
        e.push((self.a, self.b));
        e.push((self.b, self.c));
        e.push((self.c, self.a));
        proof {
            assert(e@ =~= seq![(self.a, self.b), (self.b, self.c), (self.c, self.a)]);
        }
        e
    }
}

impl PartialEq for Triangle {
    /// `==` on triangles is canonical equality, not field equality.
    fn eq(&self, other: &Triangle) -> (r: bool) {
        self.equals(other)
    }
}

impl Eq for Triangle {}

impl vstd::std_specs::cmp::PartialEqSpecImpl for Triangle {
    open spec fn obeys_eq_spec() -> bool {
        true
    }

    open spec fn eq_spec(&self, other: &Triangle) -> bool {
        tri_eq(*self, *other)
    }
}

/// Sorts three points into non-decreasing point order.
fn sort3(p: Point, q: Point, r: Point) -> (s: (Point, Point, Point))
    ensures
        s == spec_sort3(p, q, r),
{
    if le(&p, &q) {
        if le(&q, &r) {
            (p, q, r)
        } else if le(&p, &r) {
            (p, r, q)
        } else {
            (r, p, q)
        }
    } else {
        if le(&p, &r) {
            (q, p, r)
        } else if le(&q, &r) {
            (q, r, p)
        } else {
            (r, q, p)
        }
    }
}

/// Non-strict comparison of two points under the total order.
fn le(p: &Point, q: &Point) -> (r: bool)
    ensures
        r == point_le(*p, *q),
{
    proof {
        lemma_point_order_trichotomy(*p, *q);
    }
    !point_less(q, p)
}

/// Strict comparison of two points under the total order.
fn point_less(p: &Point, q: &Point) -> (r: bool)
    ensures
        r == point_lt(*p, *q),
{
    let c = p.compare(q);
    c == PointOrder::Less
}

} // verus!
