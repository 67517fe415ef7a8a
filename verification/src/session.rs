//! The mutable session state: an ordered point set and the triangle
//! collection computed from it, driven by three user-triggered
//! transitions (add a point, triangulate, reset).

use vstd::prelude::*;

use crate::engine::TriangulationEngine;
use crate::engine::deduped;
use crate::engine::materialized;
use crate::point::Point;
use crate::triangle::Triangle;

verus! {

/// An ordered sequence of accepted points, insertion order preserved.
/// Duplicates are allowed: the triangulation layer tolerates them. The
/// index of each point in the snapshot is the identity the external
/// triangulation contract uses.
pub struct PointSet {
    pub points: Vec<Point>,
}

impl View for PointSet {
    type V = Seq<Point>;

    open spec fn view(&self) -> Seq<Point> {
        self.points@
    }
}

impl PointSet {
    /// An empty point set.
    pub fn new() -> (s: PointSet)
        ensures
            s@ == Seq::<Point>::empty(),
    {
        PointSet { points: Vec::new() }
    }

    /// Appends a point at the end; always succeeds, duplicates and
    /// degenerate configurations included.
    pub fn append(&mut self, p: Point)
        ensures
            final(self)@ == old(self)@.push(p),
    {
        self.points.push(p);
    }

    /// Empties the sequence.
    pub fn clear(&mut self)
        ensures
            final(self)@ == Seq::<Point>::empty(),
    {
        self.points.clear();
    }

    /// A read-only view of the points, in insertion order.
    pub fn snapshot(&self) -> (r: &Vec<Point>)
        ensures
            r@ == self@,
    {
        &self.points
    }

    /// The number of points held.
    pub fn len(&self) -> (n: usize)
        ensures
            n == self@.len(),
    {
        self.points.len()
    }
}

/// The session owns the point set and the active triangle collection
/// and exposes the three transitions plus a read-only render model.
pub struct Session {
    pub points: PointSet,
    pub triangles: Vec<Triangle>,
}

impl Session {
    /// A fresh session: no points, no triangles.
    pub fn new() -> (s: Session)
        ensures
            s.points@ == Seq::<Point>::empty(),
            s.triangles@ == Seq::<Triangle>::empty(),
    {
        Session { points: PointSet::new(), triangles: Vec::new() }
    }

    /// Appends a point. The triangle collection is left as it is: a
    /// previously computed triangulation goes stale but stays visible
    /// until the next explicit recompute.
    pub fn add_point(&mut self, p: Point)
        ensures
            final(self).points@ == old(self).points@.push(p),
            final(self).triangles@ == old(self).triangles@,
    {
        self.points.append(p);
    }

    /// Whether a triangulation may be computed: at least three points
    /// are held, so the external geometry contract is worth invoking.
    pub fn ready_to_triangulate(&self) -> (r: bool)
        ensures
            r == (self.points@.len() >= 3),
    {
        self.points.len() >= 3
    }

    /// Replaces the triangle collection with the canonical triangles
    /// materialized from `raw`, the external triangulation contract's
    /// output over the current snapshot — unless fewer than three
    /// points are held, in which case nothing changes (a silent
    /// no-op). The point set is never touched.
    pub fn triangulate(&mut self, raw: &Vec<usize>)
        ensures
            final(self).points@ == old(self).points@,
            old(self).points@.len() >= 3 ==> final(self).triangles@ == deduped(
                materialized(old(self).points@, raw@),
            ),
            old(self).points@.len() < 3 ==> final(self).triangles@ == old(self).triangles@,
    {
        if self.points.len() >= 3 {
            self.triangles = TriangulationEngine::compute(self.points.snapshot(), raw);
        }
    }

    /// Clears the point set and the triangle collection together: the
    /// two changes are visible atomically, never one without the
    /// other.
    pub fn reset(&mut self)
        ensures
            final(self).points@ == Seq::<Point>::empty(),
            final(self).triangles@ == Seq::<Triangle>::empty(),
    {
        self.points.clear();
        self.triangles = Vec::new();
    }

    /// The points of the render model, in insertion order.
    pub fn render_points(&self) -> (r: &Vec<Point>)
        ensures
            r@ == self.points@,
    {
        self.points.snapshot()
    }

    /// The surviving triangles of the render model.
    pub fn render_triangles(&self) -> (r: &Vec<Triangle>)
        ensures
            r@ == self.triangles@,
    {
        &self.triangles
    }
}

} // verus!
