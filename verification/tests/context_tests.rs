use draw2d::{Context, Matrix2d, Transform, ViewTransform};

fn mat(entries: [[f64; 3]; 2]) -> Matrix2d {
    Matrix2d {
        m00: entries[0][0].to_bits(),
        m01: entries[0][1].to_bits(),
        m02: entries[0][2].to_bits(),
        m10: entries[1][0].to_bits(),
        m11: entries[1][1].to_bits(),
        m12: entries[1][2].to_bits(),
    }
}

#[test]
fn test_context() {
    let c = Context::new();
    {
        let d = c.trans(20.0f64.to_bits(), 40.0f64.to_bits());
        let d = d.trans(10.0f64.to_bits(), 10.0f64.to_bits());
        let transform = d.transform;
        assert_eq!(f64::from_bits(transform.m02), 30.0);
        assert_eq!(f64::from_bits(transform.m12), 50.0);
    }

    let transform = c.transform;
    assert_eq!(f64::from_bits(transform.m02), 0.0);
    assert_eq!(f64::from_bits(transform.m12), 0.0);

    // Rotating by 90 degrees: the rotation delta composed with the
    // current transform.
    let rad = 90.0f64.to_radians();
    let rot = mat([[rad.cos(), -rad.sin(), 0.0], [rad.sin(), rad.cos(), 0.0]]);
    let c = c.with_transform(Transform(draw2d::multiply(rot, c.transform)));
    let transform = c.transform;
    assert!((f64::from_bits(transform.m00) - 0.0).abs() < 0.00001);
    assert!((f64::from_bits(transform.m01) + 1.0).abs() < 0.00001);
}

#[test]
fn test_scale() {
    let c = Context::new();
    let c = c.scale(2.0f64.to_bits(), 3.0f64.to_bits());
    let transform = c.transform;
    assert!((f64::from_bits(transform.m00) - 2.0).abs() < 0.00001);
    assert!((f64::from_bits(transform.m11) - 3.0).abs() < 0.00001);
}

#[test]
fn new_context_is_identity() {
    let c = Context::new();
    for m in [c.transform, c.view] {
        assert_eq!(f64::from_bits(m.m00), 1.0);
        assert_eq!(f64::from_bits(m.m01), 0.0);
        assert_eq!(f64::from_bits(m.m02), 0.0);
        assert_eq!(f64::from_bits(m.m10), 0.0);
        assert_eq!(f64::from_bits(m.m11), 1.0);
        assert_eq!(f64::from_bits(m.m12), 0.0);
    }
}

#[test]
fn abs_maps_viewport_corners() {
    // A power-of-two viewport makes every intermediate value exact.
    let c = Context::abs(512.0f64.to_bits(), 512.0f64.to_bits());
    let m = c.transform;
    let (m00, m01, m02) = (
        f64::from_bits(m.m00),
        f64::from_bits(m.m01),
        f64::from_bits(m.m02),
    );
    let (m10, m11, m12) = (
        f64::from_bits(m.m10),
        f64::from_bits(m.m11),
        f64::from_bits(m.m12),
    );
    // Pixel corner (0, 0) lands on device coordinate (-1, 1).
    assert_eq!(m00 * 0.0 + m01 * 0.0 + m02, -1.0);
    assert_eq!(m10 * 0.0 + m11 * 0.0 + m12, 1.0);
    // Pixel corner (w, h) lands on device coordinate (1, -1).
    assert_eq!(m00 * 512.0 + m01 * 512.0 + m02, 1.0);
    assert_eq!(m10 * 512.0 + m11 * 512.0 + m12, -1.0);
    // Both matrices of the context are the same map.
    assert_eq!(c.view, c.transform);

    // A non-dyadic viewport still lands within rounding error.
    let c = Context::abs(640.0f64.to_bits(), 480.0f64.to_bits());
    let m = c.transform;
    let fx = f64::from_bits(m.m00) * 640.0 + f64::from_bits(m.m02);
    let fy = f64::from_bits(m.m11) * 480.0 + f64::from_bits(m.m12);
    assert!((fx - 1.0).abs() < 1e-9);
    assert!((fy + 1.0).abs() < 1e-9);
}

#[test]
fn set_then_get_returns_same_value() {
    let c = Context::new();
    let m = mat([[1.0, 2.0, 3.0], [4.0, 5.0, 6.0]]);
    let d = c.with_transform(Transform(m));
    assert_eq!(d.transform().0, m);
    assert_eq!(d.view_transform().0, c.view);

    let v = mat([[-1.0, 0.5, 7.0], [0.25, -8.0, 9.0]]);
    let e = d.with_view(ViewTransform(v));
    assert_eq!(e.view_transform().0, v);
    assert_eq!(e.transform().0, m);
}
