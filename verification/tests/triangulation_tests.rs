use draw2d::{Matrix2d, Rectangle, SourceRectangle};
use draw2d::{rect_tri_list_uv_dims, rect_tri_list_xy};

fn mat(entries: [[f64; 3]; 2]) -> Matrix2d {
    Matrix2d {
        m00: entries[0][0].to_bits(),
        m01: entries[0][1].to_bits(),
        m02: entries[0][2].to_bits(),
        m10: entries[1][0].to_bits(),
        m11: entries[1][1].to_bits(),
        m12: entries[1][2].to_bits(),
    }
}

fn rect(x: f64, y: f64, w: f64, h: f64) -> Rectangle {
    Rectangle {
        x: x.to_bits(),
        y: y.to_bits(),
        w: w.to_bits(),
        h: h.to_bits(),
    }
}

#[test]
fn positions_under_translation() {
    let m = mat([[1.0, 0.0, 5.0], [0.0, 1.0, 7.0]]);
    let xy = rect_tri_list_xy(m, rect(0.0, 0.0, 2.0, 3.0));
    let got: Vec<f64> = xy.iter().map(|b| f64::from_bits(*b)).collect();
    let expected = [
        5.0, 7.0, 7.0, 7.0, 5.0, 10.0,
        7.0, 7.0, 7.0, 10.0, 5.0, 10.0,
    ];
    assert_eq!(got, expected);
}

#[test]
fn positions_under_scaling() {
    let m = mat([[2.0, 0.0, 0.0], [0.0, -0.5, 0.0]]);
    let xy = rect_tri_list_xy(m, rect(1.0, 2.0, 2.0, 4.0));
    let got: Vec<f64> = xy.iter().map(|b| f64::from_bits(*b)).collect();
    let expected = [
        2.0, -1.0, 6.0, -1.0, 2.0, -3.0,
        6.0, -1.0, 6.0, -3.0, 2.0, -3.0,
    ];
    assert_eq!(got, expected);
}

#[test]
fn texture_coords_against_explicit_dimensions() {
    let sr = SourceRectangle { x: 0, y: 0, w: 32, h: 16 };
    let uv = rect_tri_list_uv_dims(sr, 32, 16);
    let got: Vec<f32> = uv.iter().map(|b| f32::from_bits(*b)).collect();
    let expected = [
        0.0, 0.0, 1.0, 0.0, 0.0, 1.0,
        1.0, 0.0, 1.0, 1.0, 0.0, 1.0,
    ];
    assert_eq!(got, expected);
}

#[test]
fn extreme_source_rectangle_is_total() {
    // The far corner x + w does not fit in 32 bits; the corners are
    // summed in 64 bits, so the triangulation is still produced.
    let sr = SourceRectangle { x: i32::MAX, y: i32::MAX, w: i32::MAX, h: i32::MAX };
    let uv = rect_tri_list_uv_dims(sr, 16, 16);
    assert_eq!(uv.len(), 12);
    let near = (i32::MAX as f32) / 16.0;
    let far = ((i32::MAX as i64 + i32::MAX as i64) as f32) / 16.0;
    assert_eq!(f32::from_bits(uv[0]), near);
    assert_eq!(f32::from_bits(uv[1]), near);
    assert_eq!(f32::from_bits(uv[2]), far);
    assert_eq!(f32::from_bits(uv[9]), far);
}

#[test]
fn composing_two_translations_adds_their_offsets() {
    // The translation column of trans(a) ∘ trans(b) is the sum of the
    // two offsets.
    let a = mat([[1.0, 0.0, 20.0], [0.0, 1.0, 40.0]]);
    let b = mat([[1.0, 0.0, 10.0], [0.0, 1.0, 10.0]]);
    let m = draw2d::multiply(a, b);
    assert_eq!(f64::from_bits(m.m02), 30.0);
    assert_eq!(f64::from_bits(m.m12), 50.0);
    assert_eq!(f64::from_bits(m.m00), 1.0);
    assert_eq!(f64::from_bits(m.m11), 1.0);
}
