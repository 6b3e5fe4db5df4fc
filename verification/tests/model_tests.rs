use effekseer_reader::config::ParseConfig;
use effekseer_reader::error::Error;
use effekseer_reader::parser::model::parse_model;
use effekseer_reader::types::primitives::{Color, Vector2D, Vector3D};

fn f(v: f32) -> u32 {
    v.to_bits()
}

fn build_model_binary(version: i32, frame_count: usize, vertex_count: usize, face_count: usize) -> Vec<u8> {
    let mut data = Vec::new();
    data.extend_from_slice(&version.to_le_bytes());
    if version == 2 || version >= 5 {
        data.extend_from_slice(&1i32.to_le_bytes());
    }
    data.extend_from_slice(&1i32.to_le_bytes());
    if version >= 5 {
        data.extend_from_slice(&(frame_count as i32).to_le_bytes());
    }
    for _ in 0..frame_count {
        data.extend_from_slice(&(vertex_count as i32).to_le_bytes());
        for i in 0..vertex_count {
            let val = i as f32;
            data.extend_from_slice(&val.to_le_bytes());
            data.extend_from_slice(&0.0f32.to_le_bytes());
            data.extend_from_slice(&0.0f32.to_le_bytes());
            data.extend_from_slice(&0.0f32.to_le_bytes());
            data.extend_from_slice(&1.0f32.to_le_bytes());
            data.extend_from_slice(&0.0f32.to_le_bytes());
            data.extend_from_slice(&0.0f32.to_le_bytes());
            data.extend_from_slice(&0.0f32.to_le_bytes());
            data.extend_from_slice(&1.0f32.to_le_bytes());
            data.extend_from_slice(&1.0f32.to_le_bytes());
            data.extend_from_slice(&0.0f32.to_le_bytes());
            data.extend_from_slice(&0.0f32.to_le_bytes());
            data.extend_from_slice(&0.5f32.to_le_bytes());
            data.extend_from_slice(&0.5f32.to_le_bytes());
            if version >= 6 {
                data.extend_from_slice(&0.25f32.to_le_bytes());
                data.extend_from_slice(&0.75f32.to_le_bytes());
            }
            if version >= 1 {
                data.push(255);
                data.push(128);
                data.push(64);
                data.push(255);
            }
        }
        data.extend_from_slice(&(face_count as i32).to_le_bytes());
        for _ in 0..face_count {
            data.extend_from_slice(&0i32.to_le_bytes());
            data.extend_from_slice(&1i32.to_le_bytes());
            data.extend_from_slice(&2i32.to_le_bytes());
        }
    }
    data
}

#[test]
fn test_parse_model_v6() {
    let data = build_model_binary(6, 1, 3, 1);
    let model = parse_model(&data, &ParseConfig::default()).unwrap();
    assert_eq!(model.version, 6);
    assert_eq!(model.frames.len(), 1);
    assert_eq!(model.frames[0].vertices.len(), 3);
    assert_eq!(model.frames[0].faces.len(), 1);
    let v = &model.frames[0].vertices[0];
    assert_eq!(v.uv2, Vector2D { x: f(0.25), y: f(0.75) });
    assert_eq!(v.vcolor, Color { r: 255, g: 128, b: 64, a: 255 });
}

#[test]
fn test_parse_model_v5() {
    let data = build_model_binary(5, 2, 2, 1);
    let model = parse_model(&data, &ParseConfig::default()).unwrap();
    assert_eq!(model.version, 5);
    assert_eq!(model.frames.len(), 2);
    let v = &model.frames[0].vertices[0];
    assert_eq!(v.uv2, v.uv1);
}

#[test]
fn test_parse_model_v0() {
    let data = build_model_binary(0, 1, 2, 1);
    let model = parse_model(&data, &ParseConfig::default()).unwrap();
    assert_eq!(model.version, 0);
    let v = &model.frames[0].vertices[0];
    assert_eq!(v.vcolor, Color { r: 255, g: 255, b: 255, a: 255 });
    assert_eq!(v.uv2, v.uv1);
}

#[test]
fn test_reject_version_too_high() {
    let mut data = Vec::new();
    data.extend_from_slice(&7i32.to_le_bytes());
    let result = parse_model(&data, &ParseConfig::default());
    assert!(result.is_err());
}

#[test]
fn test_resource_limit_vertices() {
    let mut config = ParseConfig::default();
    config.limits.max_vertices_per_frame = 1;
    let data = build_model_binary(6, 1, 3, 1);
    let result = parse_model(&data, &config);
    assert!(result.is_err());
}

#[test]
fn test_vertex_positions() {
    let data = build_model_binary(6, 1, 3, 1);
    let model = parse_model(&data, &ParseConfig::default()).unwrap();
    assert_eq!(model.frames[0].vertices[0].position, Vector3D { x: f(0.0), y: f(0.0), z: f(0.0) });
    assert_eq!(model.frames[0].vertices[1].position, Vector3D { x: f(1.0), y: f(0.0), z: f(0.0) });
    assert_eq!(model.frames[0].vertices[2].position, Vector3D { x: f(2.0), y: f(0.0), z: f(0.0) });
}

// ---- further cases

#[test]
fn model_limits_report_values() {
    let mut config = ParseConfig::default();
    config.limits.max_vertices_per_frame = 1;
    let data = build_model_binary(6, 1, 3, 1);
    assert_eq!(
        parse_model(&data, &config).err(),
        Some(Error::ResourceLimitExceeded { field: "model.vertex_count", count: 3, max: 1 })
    );
    let mut config = ParseConfig::default();
    config.limits.max_frame_count = 1;
    let data = build_model_binary(5, 2, 1, 1);
    assert_eq!(
        parse_model(&data, &config).err(),
        Some(Error::ResourceLimitExceeded { field: "model.frame_count", count: 2, max: 1 })
    );
    assert_eq!(parse_model(&7i32.to_le_bytes(), &ParseConfig::default()).err(), Some(Error::UnsupportedVersion { version: 7 }));
}

#[test]
fn model_faces() {
    let data = build_model_binary(2, 1, 1, 2);
    let model = parse_model(&data, &ParseConfig::default()).unwrap();
    assert_eq!(model.frames[0].faces.len(), 2);
    assert_eq!((model.frames[0].faces[1].i0, model.frames[0].faces[1].i1, model.frames[0].faces[1].i2), (0, 1, 2));
}
