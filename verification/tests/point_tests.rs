use delaunay_core::point::GeometryError;
use delaunay_core::point::Point;
use delaunay_core::point::PointOrder;

fn pt(x: f64, y: f64) -> Point {
    Point::new(x.to_bits(), y.to_bits()).unwrap()
}

#[test]
fn point_new_finite_ok() {
    let p = Point::new(0.0f64.to_bits(), 10.0f64.to_bits());
    assert_eq!(
        p,
        Ok(Point { x_bits: 0.0f64.to_bits(), y_bits: 10.0f64.to_bits() })
    );
}

#[test]
fn point_new_rejects_non_finite() {
    assert_eq!(
        Point::new(f64::NAN.to_bits(), 0.0f64.to_bits()),
        Err(GeometryError::InvalidCoordinate)
    );
    assert_eq!(
        Point::new(0.0f64.to_bits(), f64::INFINITY.to_bits()),
        Err(GeometryError::InvalidCoordinate)
    );
    assert_eq!(
        Point::new(f64::NEG_INFINITY.to_bits(), 1.5f64.to_bits()),
        Err(GeometryError::InvalidCoordinate)
    );
    assert_eq!(
        Point::new((-f64::NAN).to_bits(), f64::NAN.to_bits()),
        Err(GeometryError::InvalidCoordinate)
    );
}

#[test]
fn point_self_equal_and_hash_match() {
    let samples = [
        (0.0, 0.0),
        (-0.0, 0.0),
        (10.0, -3.5),
        (1e-300, 1e300),
        (123.456, -789.012),
    ];
    for &(x, y) in samples.iter() {
        let p = pt(x, y);
        let q = pt(x, y);
        assert!(p.equals(&q));
        assert_eq!(p.hash64(), q.hash64());
        assert_eq!(p.compare(&q), PointOrder::Equal);
    }
}

#[test]
fn point_bit_difference_unequal() {
    // 0.0 and -0.0 compare equal as floats but differ in one bit.
    let pos_zero = pt(0.0, 1.0);
    let neg_zero = pt(-0.0, 1.0);
    assert!(!pos_zero.equals(&neg_zero));

    // One unit in the last place apart.
    let one = pt(1.0, 2.0);
    let next = Point::new(1.0f64.to_bits() + 1, 2.0f64.to_bits()).unwrap();
    assert!(!one.equals(&next));

    // Difference only in y.
    let a = pt(3.0, 4.0);
    let b = pt(3.0, 5.0);
    assert!(!a.equals(&b));
}

#[test]
fn point_order_x_then_y() {
    let a = pt(-1.0, 100.0);
    let b = pt(0.0, -100.0);
    let c = pt(0.0, 7.0);
    assert_eq!(a.compare(&b), PointOrder::Less);
    assert_eq!(b.compare(&c), PointOrder::Less);
    assert_eq!(a.compare(&c), PointOrder::Less);
    assert_eq!(c.compare(&a), PointOrder::Greater);
}

#[test]
fn point_order_is_strict_and_total() {
    // A chain under the IEEE total order: -1.0 < -0.0 < 0.0 < 1.0.
    let chain = [pt(-1.0, 0.0), pt(-0.0, 0.0), pt(0.0, 0.0), pt(1.0, 0.0)];
    for i in 0..chain.len() {
        for j in 0..chain.len() {
            let c = chain[i].compare(&chain[j]);
            if i < j {
                assert_eq!(c, PointOrder::Less);
                // Antisymmetry: the reverse comparison flips.
                assert_eq!(chain[j].compare(&chain[i]), PointOrder::Greater);
            } else if i == j {
                assert_eq!(c, PointOrder::Equal);
            } else {
                assert_eq!(c, PointOrder::Greater);
            }
        }
    }
}
