use effekseer_reader::config::{ParseConfig, ResourceLimits};
use effekseer_reader::error::{Error, FourCC};
use effekseer_reader::eval::dynamic_equation::{seeded_u32, SimpleRand};
use effekseer_reader::parser::efkefc::extract_chunks;
use effekseer_reader::parser::node::parse_node;
use effekseer_reader::reader::BinaryReader;
use effekseer_reader::parser::{load_curve_with_config, load_efk, load_efk_with_config, load_efkefc};

fn skfe(version: i32, rest: &[u8]) -> Vec<u8> {
    let mut d = b"SKFE".to_vec();
    d.extend_from_slice(&version.to_le_bytes());
    d.extend_from_slice(rest);
    d
}

#[test]
fn versions_outside_range_are_rejected() {
    for v in [0, 1499, 1811, -1, i32::MAX] {
        let r = load_efk(&skfe(v, &[0u8; 64]));
        assert_eq!(r.map(|_| ()), Err(Error::UnsupportedVersion { version: v }));
    }
}

#[test]
fn supported_version_passes_the_header() {
    // 1500 is accepted; the body is then read and runs out.
    let r = load_efk(&skfe(1500, &[]));
    assert_eq!(r.map(|_| ()), Err(Error::UnexpectedEof { position: 8, expected_bytes: 4 }));
}

#[test]
fn wrong_magic_for_raw_binary() {
    let r = load_efk(b"EFKE\x00\x00\x00\x00");
    assert_eq!(
        r.map(|_| ()),
        Err(Error::InvalidMagic {
            expected: FourCC(b'S', b'K', b'F', b'E'),
            got: FourCC(b'E', b'F', b'K', b'E')
        })
    );
}

#[test]
fn raw_binary_loads_alike_through_the_container_loader() {
    for d in [skfe(1499, &[]), skfe(1600, &[1, 0, 0, 0]), skfe(1810, &[0u8; 40])] {
        assert_eq!(load_efkefc(&d).map(|_| ()), load_efk(&d).map(|_| ()));
    }
}

#[test]
fn resource_table_over_the_limit() {
    let config = ParseConfig {
        limits: ResourceLimits { max_resource_paths: 2, ..ResourceLimits::default() },
        ..ParseConfig::default()
    };
    let r = load_efk_with_config(&skfe(1700, &5i32.to_le_bytes()), &config);
    assert_eq!(
        r.map(|_| ()),
        Err(Error::ResourceLimitExceeded { field: "color_images", count: 5, max: 2 })
    );
}

#[test]
fn extracted_chunks_point_into_the_input() {
    let mut data = b"EFKE".to_vec();
    data.extend_from_slice(&1i32.to_le_bytes());
    data.extend_from_slice(b"EDIT");
    data.extend_from_slice(&3i32.to_le_bytes());
    data.extend_from_slice(b"abc");
    data.extend_from_slice(b"BIN_");
    data.extend_from_slice(&4i32.to_le_bytes());
    data.extend_from_slice(b"SKFE");
    let c = extract_chunks(&data).unwrap();
    let base = data.as_ptr() as usize;
    assert_eq!(c.bin.as_ptr() as usize - base, 27);
    assert_eq!(c.edit.unwrap().as_ptr() as usize - base, 16);
}

#[test]
fn simple_rand_zero_seed_and_first_value() {
    let mut r = SimpleRand::new(0);
    // one xorshift step from state 1
    assert_eq!(r.next_u32(), 270369);
    assert_ne!(r.next_u32(), 0);
    assert_eq!(seeded_u32(0), 270369);
    assert_eq!(seeded_u32(1), 270369);
}

#[test]
fn curve_control_points_over_the_limit() {
    let config = ParseConfig {
        limits: ResourceLimits { max_vertices_per_frame: 3, ..ResourceLimits::default() },
        ..ParseConfig::default()
    };
    let mut d = Vec::new();
    d.extend_from_slice(&1i32.to_le_bytes());
    d.extend_from_slice(&4i32.to_le_bytes());
    let r = load_curve_with_config(&d, &config);
    assert_eq!(
        r.map(|_| ()),
        Err(Error::ResourceLimitExceeded { field: "curve.control_points", count: 4, max: 3 })
    );
}

fn efke(chunks: &[(&[u8; 4], &[u8])]) -> Vec<u8> {
    let mut data = b"EFKE".to_vec();
    data.extend_from_slice(&1i32.to_le_bytes());
    for (id, payload) in chunks {
        data.extend_from_slice(*id);
        data.extend_from_slice(&(payload.len() as i32).to_le_bytes());
        data.extend_from_slice(payload);
    }
    data
}

#[test]
fn container_loads_its_first_bin_chunk() {
    let first = skfe(1499, &[]);
    let second = skfe(1600, &[]);
    let d = efke(&[(b"INFO", b"x"), (b"BIN_", &first), (b"EDIT", b"e"), (b"BIN_", &second)]);
    assert_eq!(load_efkefc(&d).map(|_| ()), load_efk(&first).map(|_| ()));
    assert_eq!(load_efkefc(&d).map(|_| ()), Err(Error::UnsupportedVersion { version: 1499 }));
}

#[test]
fn container_header_errors() {
    let no_bin = efke(&[(b"INFO", b"x")]);
    assert_eq!(
        load_efkefc(&no_bin).map(|_| ()),
        Err(Error::MissingChunk { chunk_id: FourCC(b'B', b'I', b'N', b'_') })
    );
    assert_eq!(
        load_efkefc(b"EF").map(|_| ()),
        Err(Error::UnexpectedEof { position: 0, expected_bytes: 4 })
    );
    assert_eq!(
        load_efkefc(b"ABCDxxxx").map(|_| ()),
        Err(Error::InvalidMagic {
            expected: FourCC(b'E', b'F', b'K', b'E'),
            got: FourCC(b'A', b'B', b'C', b'D')
        })
    );
}

#[test]
fn node_deeper_than_the_limit() {
    let data: [u8; 0] = [];
    let mut r = BinaryReader::new(&data);
    let res = parse_node(&mut r, 1700, &ParseConfig::default(), 65);
    assert_eq!(
        res.map(|_| ()),
        Err(Error::ResourceLimitExceeded { field: "node_depth", count: 65, max: 64 })
    );
}
