use effekseer_reader::config::ParseConfig;
use effekseer_reader::error::{ChunkProblem, Error};
use effekseer_reader::parser::material::parse_material;
use effekseer_reader::parser::load_material;
use effekseer_reader::types::enums::ShadingModelType;

fn build_prm_data(version: i32) -> Vec<u8> {
    let mut prm = Vec::new();
    prm.extend_from_slice(&1i32.to_le_bytes());
    prm.extend_from_slice(&0i32.to_le_bytes());
    prm.extend_from_slice(&0i32.to_le_bytes());
    prm.extend_from_slice(&0i32.to_le_bytes());
    prm.extend_from_slice(&0i32.to_le_bytes());
    if version >= 1703 {
        prm.extend_from_slice(&0i32.to_le_bytes());
    }
    prm.extend_from_slice(&1i32.to_le_bytes());
    let name = b"BaseColor";
    prm.extend_from_slice(&(name.len() as i32).to_le_bytes());
    prm.extend_from_slice(name);
    if version >= 3 {
        let uname = b"efk_texture_0";
        prm.extend_from_slice(&(uname.len() as i32).to_le_bytes());
        prm.extend_from_slice(uname);
    }
    prm.extend_from_slice(&0i32.to_le_bytes());
    prm.extend_from_slice(&0i32.to_le_bytes());
    prm.extend_from_slice(&0i32.to_le_bytes());
    prm.extend_from_slice(&0i32.to_le_bytes());
    prm.extend_from_slice(&0i32.to_le_bytes());
    prm.extend_from_slice(&0i32.to_le_bytes());
    prm.extend_from_slice(&0i32.to_le_bytes());
    if version >= 1703 {
        prm.extend_from_slice(&0i32.to_le_bytes());
        prm.extend_from_slice(&0i32.to_le_bytes());
    }
    prm
}

fn build_minimal_material(version: i32) -> Vec<u8> {
    let mut data = Vec::new();
    data.extend_from_slice(b"EFKM");
    data.extend_from_slice(&version.to_le_bytes());
    data.extend_from_slice(&42u32.to_le_bytes());
    data.extend_from_slice(&0u32.to_le_bytes());
    let prm_data = build_prm_data(version);
    data.extend_from_slice(b"PRM_");
    data.extend_from_slice(&(prm_data.len() as i32).to_le_bytes());
    data.extend_from_slice(&prm_data);
    let gene_code = b"float4 main() { return $F4$(1,1,1,1); }\0";
    data.extend_from_slice(b"GENE");
    let gene_payload_size = 4 + gene_code.len();
    data.extend_from_slice(&(gene_payload_size as i32).to_le_bytes());
    data.extend_from_slice(&(gene_code.len() as i32).to_le_bytes());
    data.extend_from_slice(gene_code);
    data
}

#[test]
fn test_parse_material_v1800() {
    let data = build_minimal_material(1800);
    let config = ParseConfig::default();
    let mat = parse_material(&data, &config).unwrap();
    assert_eq!(mat.version, 1800);
    assert_eq!(mat.guid, 42);
    assert_eq!(mat.shading_model, ShadingModelType::Unlit);
    assert!(!mat.has_refraction);
    assert_eq!(mat.textures.len(), 1);
    assert_eq!(mat.textures[0].name, "BaseColor");
    assert_eq!(mat.textures[0].uniform_name.as_deref(), Some("efk_texture_0"));
    assert!(mat.code.is_some());
    assert!(mat.code.as_ref().unwrap().contains("$F4$"));
}

#[test]
fn test_parse_material_v3() {
    let data = build_minimal_material(3);
    let config = ParseConfig::default();
    let mat = parse_material(&data, &config).unwrap();
    assert_eq!(mat.version, 3);
    assert_eq!(mat.textures.len(), 1);
    assert!(mat.required_methods.is_empty());
    assert!(mat.gradients.is_empty());
}

#[test]
fn material_test_invalid_magic() {
    let mut data = build_minimal_material(1800);
    data[0] = b'X';
    let result = parse_material(&data, &ParseConfig::default());
    assert!(result.is_err());
}

#[test]
fn test_invalid_version() {
    let mut data = Vec::new();
    data.extend_from_slice(b"EFKM");
    data.extend_from_slice(&999i32.to_le_bytes());
    data.extend_from_slice(&0u64.to_le_bytes());
    let result = parse_material(&data, &ParseConfig::default());
    assert!(result.is_err());
}

// ---- further cases

#[test]
fn material_code_drops_one_trailing_nul_and_guid_halves() {
    let mut data = build_minimal_material(1800);
    data[12..16].copy_from_slice(&1u32.to_le_bytes());
    let mat = load_material(&data).unwrap();
    assert_eq!(mat.guid, (1u64 << 32) | 42);
    assert_eq!(mat.code.unwrap(), "float4 main() { return $F4$(1,1,1,1); }");
}

#[test]
fn material_unknown_chunks_are_skipped_and_negative_size_rejected() {
    let mut data = build_minimal_material(1710);
    data.extend_from_slice(b"ZZZZ");
    data.extend_from_slice(&2i32.to_le_bytes());
    data.extend_from_slice(&[1, 2]);
    assert!(load_material(&data).is_ok());
    let mut bad = build_minimal_material(1710);
    let at = bad.len();
    bad.extend_from_slice(b"ZZZZ");
    bad.extend_from_slice(&(-2i32).to_le_bytes());
    match load_material(&bad) {
        Err(Error::InvalidChunk { problem: ChunkProblem::NegativeSize { size, position, .. } }) => {
            assert_eq!(size, -2);
            assert_eq!(position, at);
        },
        other => panic!("unexpected {:?}", other),
    }
}

#[test]
fn material_unsupported_version_value() {
    let mut data = Vec::new();
    data.extend_from_slice(b"EFKM");
    data.extend_from_slice(&1611i32.to_le_bytes());
    assert_eq!(load_material(&data).err(), Some(Error::UnsupportedVersion { version: 1611 }));
}
