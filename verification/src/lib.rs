//! Planar Delaunay triangulation core: a geometric data model in which
//! 2D points carry their coordinates as IEEE 754 bit patterns, triangles
//! compare by their canonically sorted vertex triple, and a triangulation
//! engine turns raw vertex-index triples into a deduplicated triangle set.

pub mod engine;
pub mod point;
pub mod session;
pub mod triangle;
