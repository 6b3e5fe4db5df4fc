use effekseer_reader::config::ParseConfig;
use effekseer_reader::error::Error;
use effekseer_reader::parser::fcurve::{parse_fcurve, parse_fcurve_scalar, parse_fcurve_vector3d};
use effekseer_reader::reader::BinaryReader;
use effekseer_reader::types::enums::FCurveEdge;

fn build_fcurve_bytes(count: usize) -> Vec<u8> {
    let mut data = Vec::new();
    data.extend_from_slice(&0i32.to_le_bytes());
    data.extend_from_slice(&1i32.to_le_bytes());
    data.extend_from_slice(&1.0f32.to_le_bytes());
    data.extend_from_slice(&(-1.0f32).to_le_bytes());
    data.extend_from_slice(&0i32.to_le_bytes());
    data.extend_from_slice(&100i32.to_le_bytes());
    data.extend_from_slice(&1i32.to_le_bytes());
    data.extend_from_slice(&(count as i32).to_le_bytes());
    for i in 0..count {
        data.extend_from_slice(&(i as f32).to_le_bytes());
    }
    data
}

#[test]
fn test_parse_fcurve() {
    let data = build_fcurve_bytes(5);
    let config = ParseConfig::default();
    let mut reader = BinaryReader::new(&data);
    let curve = parse_fcurve(&mut reader, &config).unwrap();
    assert_eq!(curve.start_edge, FCurveEdge::Constant);
    assert_eq!(curve.end_edge, FCurveEdge::Loop);
    assert_eq!(curve.keys.len(), 5);
    assert!((f32::from_bits(curve.keys[2]) - 2.0).abs() < f32::EPSILON);
}

#[test]
fn test_parse_fcurve_vector3d() {
    let mut data = Vec::new();
    data.extend_from_slice(&0i32.to_le_bytes());
    for _ in 0..3 {
        data.extend_from_slice(&build_fcurve_bytes(3));
    }
    let config = ParseConfig::default();
    let mut reader = BinaryReader::new(&data);
    let v = parse_fcurve_vector3d(&mut reader, 1600, &config).unwrap();
    assert_eq!(v.x.keys.len(), 3);
    assert_eq!(v.y.keys.len(), 3);
    assert_eq!(v.z.keys.len(), 3);
}

#[test]
fn fcurve_sample_limit() {
    let data = build_fcurve_bytes(3);
    let mut config = ParseConfig::default();
    config.limits.max_fcurve_samples = 2;
    let mut reader = BinaryReader::new(&data);
    assert_eq!(
        parse_fcurve(&mut reader, &config).err(),
        Some(Error::ResourceLimitExceeded { field: "FCurve.keys", count: 3, max: 2 })
    );
}

#[test]
fn fcurve_scalar_timeline_by_version() {
    let mut data = 7i32.to_le_bytes().to_vec();
    data.extend_from_slice(&build_fcurve_bytes(1));
    let config = ParseConfig::default();
    let mut reader = BinaryReader::new(&data);
    let s = parse_fcurve_scalar(&mut reader, 1600, &config).unwrap();
    assert_eq!(s.timeline, 7);
    let old = build_fcurve_bytes(1);
    let mut reader = BinaryReader::new(&old);
    let s = parse_fcurve_scalar(&mut reader, 1500, &config).unwrap();
    assert_eq!(s.timeline, 0);
    assert_eq!(s.s.keys.len(), 1);
}
