use effekseer_reader::error::{ChunkProblem, Error, FourCC};
use effekseer_reader::parser::efkefc::extract_chunks;

fn build_efkefc(container_version: i32, chunks: &[(&[u8; 4], &[u8])]) -> Vec<u8> {
    let mut data = Vec::new();
    data.extend_from_slice(b"EFKE");
    data.extend_from_slice(&container_version.to_le_bytes());
    for (fourcc, payload) in chunks {
        data.extend_from_slice(*fourcc);
        data.extend_from_slice(&(payload.len() as i32).to_le_bytes());
        data.extend_from_slice(payload);
    }
    data
}

#[test]
fn test_extract_chunks() {
    let bin_payload = b"SKFE_fake_data";
    let container = build_efkefc(1, &[(b"INFO", b"info"), (b"BIN_", bin_payload)]);
    let result = extract_chunks(&container).unwrap();
    assert_eq!(result.bin, bin_payload);
    assert!(result.edit.is_none());
}

#[test]
fn test_extract_chunks_with_edit() {
    let bin_payload = b"SKFE_fake_data";
    let edit_payload = b"edit_data";
    let container = build_efkefc(1, &[(b"INFO", b"info"), (b"BIN_", bin_payload), (b"EDIT", edit_payload)]);
    let chunks = extract_chunks(&container).unwrap();
    assert_eq!(chunks.bin, bin_payload);
    assert_eq!(chunks.edit, Some(edit_payload.as_slice()));
}

#[test]
fn test_skfe_passthrough() {
    let data = b"SKFEsomedata";
    let result = extract_chunks(data).unwrap();
    assert_eq!(result.bin, &data[..]);
    assert!(result.edit.is_none());
}

#[test]
fn test_skfe_passthrough_no_edit() {
    let data = b"SKFEsomedata";
    let chunks = extract_chunks(data).unwrap();
    assert_eq!(chunks.bin, &data[..]);
    assert!(chunks.edit.is_none());
}

#[test]
fn efkefc_test_invalid_magic() {
    let data = b"BADMsomedata";
    let result = extract_chunks(data);
    assert!(matches!(result, Err(Error::InvalidMagic { .. })));
}

#[test]
fn test_missing_bin_chunk() {
    let container = build_efkefc(1, &[(b"INFO", b"info"), (b"EDIT", b"edit")]);
    let result = extract_chunks(&container);
    assert!(matches!(result, Err(Error::MissingChunk { .. })));
}

#[test]
fn test_empty_bin_chunk() {
    let container = build_efkefc(1, &[(b"BIN_", b"")]);
    let result = extract_chunks(&container).unwrap();
    assert!(result.bin.is_empty());
}

#[test]
fn test_zero_size_chunk_skipped() {
    let bin_payload = b"SKFE_data";
    let container = build_efkefc(1, &[(b"INFO", b""), (b"BIN_", bin_payload)]);
    let result = extract_chunks(&container).unwrap();
    assert_eq!(result.bin, bin_payload);
}

#[test]
fn test_negative_chunk_size() {
    let mut data = Vec::new();
    data.extend_from_slice(b"EFKE");
    data.extend_from_slice(&1i32.to_le_bytes());
    data.extend_from_slice(b"BIN_");
    data.extend_from_slice(&(-1i32).to_le_bytes());
    let result = extract_chunks(&data);
    assert!(matches!(result, Err(Error::InvalidChunk { .. })));
}

#[test]
fn test_truncated_header() {
    let data = b"EF";
    let result = extract_chunks(data);
    assert!(matches!(result, Err(Error::UnexpectedEof { .. })));
}

// ---- further cases

#[test]
fn negative_chunk_size_details() {
    let mut data = Vec::new();
    data.extend_from_slice(b"EFKE");
    data.extend_from_slice(&1i32.to_le_bytes());
    data.extend_from_slice(b"BIN_");
    data.extend_from_slice(&(-5i32).to_le_bytes());
    assert_eq!(
        extract_chunks(&data).err(),
        Some(Error::InvalidChunk {
            problem: ChunkProblem::NegativeSize { chunk_id: FourCC(b'B', b'I', b'N', b'_'), size: -5, position: 8 },
        })
    );
}

#[test]
fn first_bin_chunk_wins() {
    let container = build_efkefc(1, &[(b"BIN_", b"first"), (b"BIN_", b"second")]);
    assert_eq!(extract_chunks(&container).unwrap().bin, b"first");
}

#[test]
fn chunk_past_end_is_eof() {
    let mut data = build_efkefc(1, &[]);
    data.extend_from_slice(b"BIN_");
    data.extend_from_slice(&10i32.to_le_bytes());
    data.extend_from_slice(b"abc");
    assert_eq!(extract_chunks(&data).err(), Some(Error::UnexpectedEof { position: 16, expected_bytes: 10 }));
}

#[test]
fn trailing_partial_header_is_ignored() {
    let mut data = build_efkefc(1, &[(b"BIN_", b"x")]);
    data.extend_from_slice(b"EDI");
    assert_eq!(extract_chunks(&data).unwrap().bin, b"x");
}

#[test]
fn invalid_magic_reports_bytes() {
    assert_eq!(
        extract_chunks(b"ABCDxxxx").err(),
        Some(Error::InvalidMagic { expected: FourCC(b'E', b'F', b'K', b'E'), got: FourCC(b'A', b'B', b'C', b'D') })
    );
}

// ---------------------------------------------------------------- EDIT chunk

use effekseer_reader::parser::efkefc::{parse_edit_chunk, parse_edit_data, TargetLocationEntry};
use std::io::Write;

fn push_u16(buf: &mut Vec<u8>, v: u16) {
    buf.extend_from_slice(&v.to_le_bytes());
}

fn push_i32(buf: &mut Vec<u8>, v: i32) {
    buf.extend_from_slice(&v.to_le_bytes());
}

fn push_dict(buf: &mut Vec<u8>, strs: &[&str]) {
    push_u16(buf, strs.len() as u16);
    for (i, s) in strs.iter().enumerate() {
        push_u16(buf, s.len() as u16);
        buf.extend_from_slice(s.as_bytes());
        push_u16(buf, i as u16);
    }
}

/// Element header: name key, optional value key, children flag.
fn push_element(buf: &mut Vec<u8>, name_key: u16, value_key: Option<u16>, has_children: bool) {
    push_u16(buf, name_key);
    match value_key {
        Some(v) => {
            push_i32(buf, 1);
            push_u16(buf, v);
        }
        None => push_i32(buf, 0),
    }
    push_i32(buf, if has_children { 1 } else { 0 });
}

/// The synthetic editor data of the original test: EffekseerProject > Behavior >
/// TargetLocation > {X = 1.5, Y = 15, Z = -3}.
fn synthetic_edit_data() -> Vec<u8> {
    let mut buf = Vec::new();
    push_dict(&mut buf, &["EffekseerProject", "Behavior", "TargetLocation", "X", "Y", "Z"]);
    push_dict(&mut buf, &["1.5", "15", "-3"]);
    push_u16(&mut buf, 1);
    push_element(&mut buf, 0, None, true);
    push_u16(&mut buf, 1);
    push_element(&mut buf, 1, None, true);
    push_u16(&mut buf, 1);
    push_element(&mut buf, 2, None, true);
    push_u16(&mut buf, 3);
    push_element(&mut buf, 3, Some(0), false);
    push_element(&mut buf, 4, Some(1), false);
    push_element(&mut buf, 5, Some(2), false);
    buf
}

fn compress(data: &[u8]) -> Vec<u8> {
    let mut encoder = flate2::write::ZlibEncoder::new(Vec::new(), flate2::Compression::default());
    encoder.write_all(data).unwrap();
    encoder.finish().unwrap()
}

fn entry(e: &TargetLocationEntry) -> (&str, &str) {
    (e.name.as_str(), e.value.as_str())
}

/// The target location that the entries describe, as the editor reads it:
/// components that parse as numbers set X, Y or Z of a location that starts at
/// the origin.
fn target_location(entries: &[TargetLocationEntry]) -> Option<(f32, f32, f32)> {
    let mut tl: Option<(f32, f32, f32)> = None;
    for e in entries {
        if let Ok(f) = e.value.parse::<f32>() {
            let t = tl.get_or_insert((0.0, 0.0, 0.0));
            match e.name.as_str() {
                "X" => t.0 = f,
                "Y" => t.1 = f,
                "Z" => t.2 = f,
                _ => {}
            }
        }
    }
    tl
}

#[test]
fn test_parse_edit_chunk_synthetic() {
    let compressed = compress(&synthetic_edit_data());
    let entries = parse_edit_chunk(&compressed).unwrap();
    let tl = target_location(&entries).expect("should have target_location");
    assert!((tl.0 - 1.5).abs() < 0.001);
    assert!((tl.1 - 15.0).abs() < 0.001);
    assert!((tl.2 - (-3.0)).abs() < 0.001);
}

#[test]
fn edit_data_entries_in_document_order() {
    let entries = parse_edit_data(&synthetic_edit_data()).unwrap();
    let got: Vec<(&str, &str)> = entries.iter().map(entry).collect();
    assert_eq!(got, vec![("X", "1.5"), ("Y", "15"), ("Z", "-3")]);
}

#[test]
fn edit_chunk_not_zlib() {
    let r = parse_edit_chunk(b"definitely not zlib");
    assert!(matches!(
        r,
        Err(Error::InvalidChunk { problem: ChunkProblem::DecompressionFailed })
    ));
}

#[test]
fn edit_values_outside_target_location_are_ignored() {
    let mut buf = Vec::new();
    push_dict(&mut buf, &["Root", "X"]);
    push_dict(&mut buf, &["7"]);
    push_u16(&mut buf, 1);
    push_element(&mut buf, 0, None, true);
    push_u16(&mut buf, 1);
    push_element(&mut buf, 1, Some(0), false);
    let entries = parse_edit_data(&buf).unwrap();
    assert!(entries.is_empty());
}

#[test]
fn edit_value_key_outside_table_gives_no_entry() {
    let mut buf = Vec::new();
    push_dict(&mut buf, &["TargetLocation", "X", "Y"]);
    push_dict(&mut buf, &["2"]);
    push_u16(&mut buf, 1);
    push_element(&mut buf, 0, None, true);
    push_u16(&mut buf, 2);
    push_element(&mut buf, 1, Some(5), false);
    push_element(&mut buf, 2, Some(0), false);
    let entries = parse_edit_data(&buf).unwrap();
    let got: Vec<(&str, &str)> = entries.iter().map(entry).collect();
    assert_eq!(got, vec![("Y", "2")]);
}

#[test]
fn edit_name_key_outside_table_is_empty_name() {
    let mut buf = Vec::new();
    push_dict(&mut buf, &["TargetLocation"]);
    push_dict(&mut buf, &["4"]);
    push_u16(&mut buf, 1);
    push_element(&mut buf, 0, None, true);
    push_u16(&mut buf, 1);
    push_element(&mut buf, 9, Some(0), false);
    let entries = parse_edit_data(&buf).unwrap();
    let got: Vec<(&str, &str)> = entries.iter().map(entry).collect();
    assert_eq!(got, vec![("", "4")]);
}

#[test]
fn edit_later_dictionary_entry_overwrites_slot() {
    let mut buf = Vec::new();
    // two key slots; both entries write slot 0, the later name wins
    push_u16(&mut buf, 2);
    push_u16(&mut buf, 5);
    buf.extend_from_slice(b"Other");
    push_u16(&mut buf, 0);
    push_u16(&mut buf, 14);
    buf.extend_from_slice(b"TargetLocation");
    push_u16(&mut buf, 0);
    push_dict(&mut buf, &["8"]);
    push_u16(&mut buf, 1);
    push_element(&mut buf, 0, None, true);
    push_u16(&mut buf, 1);
    push_element(&mut buf, 1, Some(0), false);
    let entries = parse_edit_data(&buf).unwrap();
    let got: Vec<(&str, &str)> = entries.iter().map(entry).collect();
    // slot 1 was never filled, so the child's name is empty
    assert_eq!(got, vec![("", "8")]);
}

#[test]
fn edit_dictionary_invalid_utf8() {
    let mut buf = Vec::new();
    push_u16(&mut buf, 1);
    push_u16(&mut buf, 2);
    buf.extend_from_slice(&[0xFF, 0xFE]);
    push_u16(&mut buf, 0);
    let r = parse_edit_data(&buf);
    assert!(matches!(r, Err(Error::Utf8DecodeError { position: 4 })));
}

#[test]
fn edit_truncated_tree_is_eof() {
    let mut buf = Vec::new();
    push_dict(&mut buf, &["A"]);
    push_dict(&mut buf, &[]);
    push_u16(&mut buf, 1);
    push_u16(&mut buf, 0); // name key, then nothing
    let len = buf.len();
    let r = parse_edit_data(&buf);
    assert!(matches!(
        r,
        Err(Error::UnexpectedEof { position, expected_bytes: 4 }) if position == len
    ));
}
