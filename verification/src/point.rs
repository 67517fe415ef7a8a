//! An immutable 2D coordinate value with bit-exact equality, hashing,
//! and a total order.
//!
//! Coordinates are stored as the 64-bit IEEE 754 bit patterns of the
//! `f64` values they stand for. Equality is bit-for-bit, hashing is a
//! pure function of the two bit patterns, and the order is the IEEE 754
//! total order on each component (`x` first, then `y`), expressed
//! arithmetically on the bit patterns.

use vstd::prelude::*;

verus! {

/// The error raised when a point is constructed from a non-finite
/// coordinate (NaN or an infinity).
#[derive(Clone, Copy, Debug, PartialEq, Eq, Structural)]
pub enum GeometryError {
    InvalidCoordinate,
}

/// A 2D point. Each field holds the IEEE 754 bit pattern of one `f64`
/// coordinate, so equality of points is exactly bit-exact equality of
/// the coordinates.
#[derive(Clone, Copy, Debug, PartialEq, Eq, Structural, Hash)]
pub struct Point {
    pub x_bits: u64,
    pub y_bits: u64,
}

/// An `f64` bit pattern encodes a finite number exactly when its
/// exponent field (bits 52..=62) is not all ones; dividing by 2^52 and
/// reducing mod 2^11 reads that field.
pub open spec fn finite_bits(b: u64) -> bool {
    (b / 0x10_0000_0000_0000) % 0x800 != 0x7ff
}

impl Point {
    /// Builds a point from the bit patterns of its two coordinates.
    /// Fails with `InvalidCoordinate` exactly when either pattern
    /// encodes NaN or an infinity.
    pub fn new(x_bits: u64, y_bits: u64) -> (r: Result<Point, GeometryError>)
        ensures
            finite_bits(x_bits) && finite_bits(y_bits)
                <==> r == Ok::<Point, GeometryError>(Point { x_bits, y_bits }),
            !(finite_bits(x_bits) && finite_bits(y_bits))
                <==> r == Err::<Point, GeometryError>(GeometryError::InvalidCoordinate),
    {
        if (x_bits / 0x10_0000_0000_0000) % 0x800 != 0x7ff
            && (y_bits / 0x10_0000_0000_0000) % 0x800 != 0x7ff {
            Ok(Point { x_bits, y_bits })
        } else {
            Err(GeometryError::InvalidCoordinate)
        }
    }

    /// Bit-exact comparison of the two coordinate patterns.
    pub fn equals(&self, other: &Point) -> (r: bool)
        ensures
            r == (*self == *other),
    {
        self.x_bits == other.x_bits && self.y_bits == other.y_bits
    }

    /// A hash derived from the two coordinate bit patterns and nothing
    /// else, so that bit-equal points always hash alike.
    pub fn hash64(&self) -> (h: u64)
        ensures
            h == point_hash(*self),
    {
        self.x_bits ^ ((self.y_bits << 32) | (self.y_bits >> 32))
    }

    /// Total-order comparison: `x` first, then `y`, each component under
    /// the IEEE 754 total order on its bit pattern.
    pub fn compare(&self, other: &Point) -> (r: PointOrder)
        ensures
            r == PointOrder::Less <==> point_lt(*self, *other),
            r == PointOrder::Greater <==> point_lt(*other, *self),
            r == PointOrder::Equal <==> *self == *other,
    {
        proof {
            lemma_order_key_injective(self.x_bits, other.x_bits);
            lemma_order_key_injective(self.y_bits, other.y_bits);
        }
        let sx = order_key(self.x_bits);
        let ox = order_key(other.x_bits);
        if sx < ox {
            PointOrder::Less
        } else if ox < sx {
            PointOrder::Greater
        } else {
            let sy = order_key(self.y_bits);
            let oy = order_key(other.y_bits);
            if sy < oy {
                PointOrder::Less
            } else if oy < sy {
                PointOrder::Greater
            } else {
                PointOrder::Equal
            }
        }
    }
}

/// The outcome of comparing two points under the total order.
#[derive(Clone, Copy, Debug, PartialEq, Eq, Structural)]
pub enum PointOrder {
    Less,
    Equal,
    Greater,
}

/// The hash of a point: the `x` pattern folded with the `y` pattern
/// rotated by 32 bits.
pub open spec fn point_hash(p: Point) -> u64 {
    p.x_bits ^ ((p.y_bits << 32) | (p.y_bits >> 32))
}

/// The sort key that realises the IEEE 754 total order on `f64` bit
/// patterns as an ordinary integer order: non-negative patterns (sign
/// bit clear) are shifted above all negative ones, and negative
/// patterns are reversed so that greater magnitude sorts lower.
pub open spec fn spec_order_key(b: u64) -> int {
    if b < 0x8000_0000_0000_0000 {
        b + 0x8000_0000_0000_0000
    } else {
        0xffff_ffff_ffff_ffff - b
    }
}

/// Computes `spec_order_key` on a coordinate bit pattern.
pub fn order_key(b: u64) -> (k: u64)
    ensures
        k == spec_order_key(b),
{
    if b < 0x8000_0000_0000_0000 {
        b + 0x8000_0000_0000_0000
    } else {
        0xffff_ffff_ffff_ffff - b
    }
}

/// Strict order on points: `x` keys first, then `y` keys on equal `x`.
pub open spec fn point_lt(p: Point, q: Point) -> bool {
    ||| spec_order_key(p.x_bits) < spec_order_key(q.x_bits)
    ||| (p.x_bits == q.x_bits && spec_order_key(p.y_bits) < spec_order_key(q.y_bits))
}

/// Reflexive closure of the strict order.
pub open spec fn point_le(p: Point, q: Point) -> bool {
    point_lt(p, q) || p == q
}

/// Distinct bit patterns always get distinct sort keys, so the key
/// order never conflates two different coordinates.
pub proof fn lemma_order_key_injective(a: u64, b: u64)
    ensures
        spec_order_key(a) == spec_order_key(b) ==> a == b,
{
}

/// Exactly one of `p < q`, `p == q`, `q < p` holds: the point order is
/// total and antisymmetric.
pub proof fn lemma_point_order_trichotomy(p: Point, q: Point)
    ensures
        point_lt(p, q) || point_lt(q, p) || p == q,
        point_lt(p, q) ==> !point_lt(q, p) && p != q,
        p == q ==> !point_lt(p, q),
{
    lemma_order_key_injective(p.x_bits, q.x_bits);
    lemma_order_key_injective(p.y_bits, q.y_bits);
}

/// The point order is transitive.
pub proof fn lemma_point_order_transitive(p: Point, q: Point, r: Point)
    ensures
        point_lt(p, q) && point_lt(q, r) ==> point_lt(p, r),
{
    lemma_order_key_injective(p.x_bits, q.x_bits);
    lemma_order_key_injective(q.x_bits, r.x_bits);
    lemma_order_key_injective(p.x_bits, r.x_bits);
}

/// Point equality is exactly bit-exact equality of both coordinates:
/// points are equal when every bit agrees, and a difference in any bit
/// of either coordinate makes them unequal.
pub proof fn lemma_point_equality_bit_exact(p: Point, q: Point)
    ensures
        (p == q) <==> (p.x_bits == q.x_bits && p.y_bits == q.y_bits),
{
}

/// Bit-equal points hash alike: hashing is consistent with equality.
pub proof fn lemma_hash_consistent_with_equality(p: Point, q: Point)
    ensures
        p == q ==> point_hash(p) == point_hash(q),
{
}

} // verus!
