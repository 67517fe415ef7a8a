//! Turning a raw triangulation result into a canonical triangle set.
//!
//! The external geometry contract hands back a flat sequence of vertex
//! indices, consumed in consecutive groups of three, each group naming
//! one triangle by indices into the input point sequence. The engine
//! materializes each complete, in-bounds triple into a [`Triangle`]
//! value and drops everything else: an incomplete trailing group and
//! any triple with an out-of-bounds index are discarded silently, never
//! an error. The materialized triangles are then deduplicated under
//! canonical equality, keeping first occurrences in order.

use vstd::prelude::*;

use crate::point::Point;
use crate::triangle::Triangle;
use crate::triangle::tri_eq;

verus! {

/// The triangles named by the raw index sequence, in order: each
/// consecutive group of three in-bounds indices contributes one
/// triangle; incomplete or out-of-bounds groups contribute nothing.
pub open spec fn materialized(points: Seq<Point>, raw: Seq<usize>) -> Seq<Triangle>
    decreases raw.len(),
{
    if raw.len() < 3 {
        Seq::empty()
    } else {
        let rest = materialized(points, raw.skip(3));
        if raw[0] < points.len() && raw[1] < points.len() && raw[2] < points.len() {
            seq![
                Triangle { a: points[raw[0] as int], b: points[raw[1] as int], c: points[raw[2] as int] },
            ] + rest
        } else {
            rest
        }
    }
}

/// Some element of `s` is canonically equal to `t`.
pub open spec fn contains_equal(s: Seq<Triangle>, t: Triangle) -> bool {
    exists|i: int| 0 <= i < s.len() && tri_eq(s[i], t)
}

/// `s` with canonical duplicates removed, keeping the first occurrence
/// of each triangle in order.
pub open spec fn deduped(s: Seq<Triangle>) -> Seq<Triangle>
    decreases s.len(),
{
    if s.len() == 0 {
        Seq::empty()
    } else {
        let d = deduped(s.drop_last());
        if contains_equal(d, s.last()) {
            d
        } else {
            d.push(s.last())
        }
    }
}

/// Materialization distributes over appending whole groups of three.
proof fn lemma_materialized_append(points: Seq<Point>, u: Seq<usize>, v: Seq<usize>)
    requires
        u.len() % 3 == 0,
    ensures
        materialized(points, u + v) == materialized(points, u) + materialized(points, v),
    decreases u.len(),
{
    if u.len() == 0 {
        assert(u + v =~= v);
        assert(materialized(points, u) + materialized(points, v) =~= materialized(points, v));
    } else {
        assert(u.len() >= 3);
        assert((u + v).skip(3) =~= u.skip(3) + v);
        assert(u.skip(3).len() % 3 == 0);
        lemma_materialized_append(points, u.skip(3), v);
        assert((u + v)[0] == u[0] && (u + v)[1] == u[1] && (u + v)[2] == u[2]);
        assert(materialized(points, u + v) =~= materialized(points, u) + materialized(points, v));
    }
}

/// No two triangles of a deduplicated sequence are canonically equal.
pub proof fn lemma_deduped_distinct(s: Seq<Triangle>)
    ensures
        forall|i: int, j: int|
            0 <= i < j < deduped(s).len() ==> !tri_eq(deduped(s)[i], deduped(s)[j]),
    decreases s.len(),
{
    if s.len() > 0 {
        lemma_deduped_distinct(s.drop_last());
        let d = deduped(s.drop_last());
        if !contains_equal(d, s.last()) {
            assert forall|i: int, j: int|
                0 <= i < j < deduped(s).len() implies !tri_eq(deduped(s)[i], deduped(s)[j]) by {
                if j < d.len() {
                    assert(deduped(s)[i] == d[i] && deduped(s)[j] == d[j]);
                } else {
                    assert(deduped(s)[j] == s.last());
                    assert(deduped(s)[i] == d[i]);
                    assert(!tri_eq(d[i], s.last()));
                }
            }
        }
    }
}

/// Deduplication keeps exactly the triangles that were there: a
/// triangle has a canonical equal in `deduped(s)` exactly when it has
/// one in `s`.
pub proof fn lemma_deduped_membership(s: Seq<Triangle>, t: Triangle)
    ensures
        contains_equal(deduped(s), t) <==> contains_equal(s, t),
    decreases s.len(),
{
    if s.len() > 0 {
        lemma_deduped_membership(s.drop_last(), t);
        let d = deduped(s.drop_last());
        let dd = deduped(s);
        if contains_equal(s, t) {
            let w = choose|i: int| 0 <= i < s.len() && tri_eq(s[i], t);
            if w < s.len() - 1 {
                assert(s.drop_last()[w] == s[w]);
                assert(contains_equal(s.drop_last(), t));
                let u = choose|i: int| 0 <= i < d.len() && tri_eq(d[i], t);
                assert(tri_eq(dd[u], t));
                assert(contains_equal(dd, t));
            } else {
                assert(tri_eq(s.last(), t));
                if contains_equal(d, s.last()) {
                    let u = choose|i: int| 0 <= i < d.len() && tri_eq(d[i], s.last());
                    assert(tri_eq(d[u], t));
                    assert(tri_eq(dd[u], t));
                    assert(contains_equal(dd, t));
                } else {
                    assert(dd[dd.len() - 1] == s.last());
                    assert(tri_eq(dd[dd.len() - 1], t));
                    assert(contains_equal(dd, t));
                }
            }
        }
        if contains_equal(dd, t) {
            let w = choose|i: int| 0 <= i < dd.len() && tri_eq(dd[i], t);
            if w < d.len() {
                assert(dd[w] == d[w]);
                assert(contains_equal(d, t));
                assert(contains_equal(s.drop_last(), t));
                let u = choose|i: int| 0 <= i < s.drop_last().len() && tri_eq(s.drop_last()[i], t);
                assert(s.drop_last()[u] == s[u]);
                assert(contains_equal(s, t));
            } else {
                assert(dd[w] == s.last());
                assert(tri_eq(s[s.len() - 1], t));
                assert(contains_equal(s, t));
            }
        }
    }
}

/// Converts a point set snapshot and a raw triangulation result into a
/// canonical, deduplicated collection of triangles.
pub struct TriangulationEngine {}

impl TriangulationEngine {
    /// Materializes the raw index triples over `points` and removes
    /// canonical duplicates, keeping first occurrences in order.
    ///
    /// With fewer than three points the raw result is not consulted at
    /// all and the outcome is empty — a defined no-op, not an error.
    /// Malformed triples (an out-of-bounds index, an incomplete
    /// trailing group) are dropped silently.
    pub fn compute(points: &Vec<Point>, raw: &Vec<usize>) -> (result: Vec<Triangle>)
        ensures
            points@.len() < 3 ==> result@ == Seq::<Triangle>::empty(),
            points@.len() >= 3 ==> result@ == deduped(materialized(points@, raw@)),
            forall|i: int, j: int|
                0 <= i < j < result@.len() ==> !tri_eq(result@[i], result@[j]),
    {
        let mut result: Vec<Triangle> = Vec::new();
        if points.len() < 3 {
            proof {
                lemma_deduped_distinct(materialized(points@, raw@));
            }
            return result;
        }
        let mut idx: usize = 0;
        proof {
            assert(raw@.take(0) =~= Seq::<usize>::empty());
        }
        while raw.len() - idx >= 3
            invariant
                idx <= raw.len(),
                idx % 3 == 0,
                result@ == deduped(materialized(points@, raw@.take(idx as int))),
            decreases raw.len() - idx,
        {
            let i = raw[idx];
            let j = raw[idx + 1];
            let k = raw[idx + 2];
            let ghost prefix = raw@.take(idx as int);
            let ghost chunk = raw@.subrange(idx as int, idx as int + 3);
            let ghost m_prefix = materialized(points@, prefix);
            proof {
                assert(raw@.take(idx as int + 3) =~= prefix + chunk);
                lemma_materialized_append(points@, prefix, chunk);
                assert(chunk.skip(3) =~= Seq::<usize>::empty());
                assert(materialized(points@, Seq::<usize>::empty()) == Seq::<Triangle>::empty());
                assert(chunk.len() == 3);
                assert(chunk[0] == i && chunk[1] == j && chunk[2] == k);
            }
            if i < points.len() && j < points.len() && k < points.len() {
                let t = Triangle::new(points[i], points[j], points[k]);
                proof {
                    assert(materialized(points@, chunk) =~= seq![t]);
                    assert(materialized(points@, prefix + chunk) =~= m_prefix.push(t));
                    assert(m_prefix.push(t).drop_last() =~= m_prefix);
                }
                let mut found = false;
                let mut s: usize = 0;
                while s < result.len()
                    invariant
                        s <= result.len(),
                        found ==> contains_equal(result@, t),
                        !found ==> forall|m: int| 0 <= m < s ==> !tri_eq(result@[m], t),
                    decreases result.len() - s,
                {
                    if result[s].equals(&t) {
                        found = true;
                    }
                    s += 1;
                }
                if !found {
                    result.push(t);
                }
            } else {
                proof {
                    assert(materialized(points@, chunk) =~= Seq::<Triangle>::empty());
                    assert(materialized(points@, prefix + chunk) =~= m_prefix);
                }
            }
            idx += 3;
        }
        proof {
            let prefix = raw@.take(idx as int);
            let suffix = raw@.skip(idx as int);
            assert(raw@ =~= prefix + suffix);
            lemma_materialized_append(points@, prefix, suffix);
            assert(suffix.len() < 3);
            assert(materialized(points@, suffix) =~= Seq::<Triangle>::empty());
            assert(materialized(points@, prefix) + materialized(points@, suffix) =~= materialized(
                points@,
                prefix,
            ));
            lemma_deduped_distinct(materialized(points@, raw@));
        }
        result
    }
}

} // verus!
