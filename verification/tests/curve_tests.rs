use effekseer_reader::config::ParseConfig;
use effekseer_reader::parser::curve::parse_curve;
use effekseer_reader::types::curve::NurbsCurve;

fn build_curve_binary(num_points: usize, num_knots: usize) -> Vec<u8> {
    let mut data = Vec::new();
    data.extend_from_slice(&1i32.to_le_bytes());
    data.extend_from_slice(&(num_points as i32).to_le_bytes());
    for i in 0..num_points {
        let x = i as f64;
        data.extend_from_slice(&x.to_le_bytes());
        data.extend_from_slice(&0.0f64.to_le_bytes());
        data.extend_from_slice(&0.0f64.to_le_bytes());
        data.extend_from_slice(&1.0f64.to_le_bytes());
    }
    data.extend_from_slice(&(num_knots as i32).to_le_bytes());
    for i in 0..num_knots {
        let k = i as f64;
        data.extend_from_slice(&k.to_le_bytes());
    }
    data.extend_from_slice(&4i32.to_le_bytes());
    data.extend_from_slice(&0.01f64.to_le_bytes());
    data.extend_from_slice(&0i32.to_le_bytes());
    data.extend_from_slice(&3i32.to_le_bytes());
    data
}

/// The length of the control polygon (x, y, z of consecutive points), from
/// the bit patterns the parser keeps.
fn polygon_length(c: &NurbsCurve) -> f64 {
    let p = |i: usize, k: usize| {
        let v = &c.control_points[i];
        f64::from_bits([v.x, v.y, v.z][k])
    };
    let mut total = 0.0;
    for i in 1..c.control_points.len() {
        let (dx, dy, dz) = (p(i, 0) - p(i - 1, 0), p(i, 1) - p(i - 1, 1), p(i, 2) - p(i - 1, 2));
        total += (dx * dx + dy * dy + dz * dz).sqrt();
    }
    total
}

#[test]
fn test_parse_curve() {
    let data = build_curve_binary(4, 8);
    let config = ParseConfig::default();
    let curve = parse_curve(&data, &config).unwrap();
    assert_eq!(curve.converter_version, 1);
    assert_eq!(curve.control_points.len(), 4);
    assert_eq!(curve.knots.len(), 8);
    assert_eq!(curve.order, 4);
    assert!((f64::from_bits(curve.step) - 0.01).abs() < f64::EPSILON);
    assert_eq!(curve.dimension, 3);
    assert!((polygon_length(&curve) - 3.0).abs() < 1e-10);
}

#[test]
fn test_single_point_length() {
    let data = build_curve_binary(1, 2);
    let config = ParseConfig::default();
    let curve = parse_curve(&data, &config).unwrap();
    assert_eq!(curve.control_points.len(), 1);
    assert!((polygon_length(&curve) - 0.0).abs() < f64::EPSILON);
}

#[test]
fn test_empty_curve_length() {
    let data = build_curve_binary(0, 0);
    let config = ParseConfig::default();
    let curve = parse_curve(&data, &config).unwrap();
    assert_eq!(curve.control_points.len(), 0);
    assert!((polygon_length(&curve) - 0.0).abs() < f64::EPSILON);
}
