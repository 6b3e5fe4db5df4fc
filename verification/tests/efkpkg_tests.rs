use std::io::Write;

use effekseer_reader::error::Error;
use effekseer_reader::parser::efkpkg::{
    assemble_package, package_from_files, read_metafile_bytes, EfkPkgFile, EfkPkgFileType,
    MetafileEntry,
};
use effekseer_reader::parser::load_efkefc;

/// A stored (uncompressed) zip archive with the given entries.
fn build_zip(entries: &[(&str, &[u8])]) -> Vec<u8> {
    let mut w = zip::ZipWriter::new(std::io::Cursor::new(Vec::new()));
    let options = zip::write::SimpleFileOptions::default()
        .compression_method(zip::CompressionMethod::Stored);
    for (name, data) in entries {
        w.start_file(*name, options).unwrap();
        w.write_all(data).unwrap();
    }
    w.finish().unwrap().into_inner()
}

fn meta(hash: &str, file_type: EfkPkgFileType, path: &str, deps: &[&str]) -> MetafileEntry {
    MetafileEntry {
        hash_name: hash.to_string(),
        file_type,
        relative_path: path.to_string(),
        dependencies: deps.iter().map(|s| s.to_string()).collect(),
    }
}

const EFFECT_A: &[u8] = b"SKFE\x00\x00\x00\x00";
const EFFECT_B: &[u8] = b"SKFE\x01\x00\x00\x00";

fn sample_archive() -> Vec<u8> {
    build_zip(&[
        ("metafile.json", b"{}"),
        ("tex01", b"PNGDATA"),
        ("eff01", EFFECT_A),
        ("mat01", b"MATERIAL"),
        ("eff02", EFFECT_B),
    ])
}

fn sample_entries() -> Vec<MetafileEntry> {
    vec![
        meta("tex01", EfkPkgFileType::Texture, "textures/a.png", &[]),
        meta("eff01", EfkPkgFileType::Effect, "a.efkefc", &["tex01", "mat01"]),
        meta("mat01", EfkPkgFileType::Material, "m.efkmat", &["tex01"]),
        meta("eff02", EfkPkgFileType::Effect, "b.efkefc", &[]),
    ]
}

#[test]
fn metafile_bytes_are_read() {
    let zip = build_zip(&[("metafile.json", b"{\"version\":\"1.70\"}")]);
    let bytes = read_metafile_bytes(&zip).unwrap();
    assert_eq!(bytes, b"{\"version\":\"1.70\"}".to_vec());
}

#[test]
fn metafile_bom_is_stripped() {
    let zip = build_zip(&[("metafile.json", b"\xEF\xBB\xBF{}")]);
    assert_eq!(read_metafile_bytes(&zip).unwrap(), b"{}".to_vec());
}

#[test]
fn metafile_missing() {
    let zip = build_zip(&[("other", b"x")]);
    assert!(matches!(read_metafile_bytes(&zip), Err(Error::MissingMetafile)));
}

#[test]
fn not_a_zip_archive() {
    assert!(matches!(read_metafile_bytes(b"not a zip at all"), Err(Error::ZipError(_))));
}

#[test]
fn package_is_assembled_in_index_order() {
    let zip = sample_archive();
    let pkg = assemble_package(&zip, "1.70".to_string(), sample_entries()).unwrap();
    assert_eq!(pkg.version, "1.70");
    let names: Vec<&str> = pkg.files.iter().map(|f| f.hash_name.as_str()).collect();
    assert_eq!(names, vec!["tex01", "eff01", "mat01", "eff02"]);
    assert_eq!(pkg.effect.hash_name, "eff01");
    assert_eq!(pkg.effect.data, EFFECT_A.to_vec());
    assert_eq!(pkg.effect.dependencies, vec!["tex01".to_string(), "mat01".to_string()]);
    assert_eq!(pkg.extra_effects.len(), 1);
    assert_eq!(pkg.extra_effects[0].hash_name, "eff02");
    assert_eq!(pkg.files[0].data, b"PNGDATA".to_vec());
}

#[test]
fn package_get_and_find() {
    let zip = sample_archive();
    let pkg = assemble_package(&zip, "1.70".to_string(), sample_entries()).unwrap();
    let mat = pkg.get("mat01").unwrap();
    assert_eq!(mat.file_type, EfkPkgFileType::Material);
    assert_eq!(mat.data, b"MATERIAL".to_vec());
    assert!(pkg.get("nope").is_none());
    let tex = pkg.find_by_relative_path("textures/a.png").unwrap();
    assert_eq!(tex.hash_name, "tex01");
    assert!(pkg.find_by_relative_path("textures/b.png").is_none());
    // every bundled file is found again under its hash name
    for f in &pkg.files {
        assert_eq!(pkg.get(&f.hash_name).unwrap().hash_name, f.hash_name);
    }
}

#[test]
fn package_effect_parses_like_its_bytes() {
    let zip = sample_archive();
    let pkg = assemble_package(&zip, "1.70".to_string(), sample_entries()).unwrap();
    assert_eq!(pkg.parse_effect().map(|_| ()), load_efkefc(EFFECT_A).map(|_| ()));
    assert!(matches!(pkg.parse_effect(), Err(Error::UnsupportedVersion { version: 0 })));
}

#[test]
fn package_without_effect() {
    let zip = build_zip(&[("tex01", b"PNG")]);
    let entries = vec![meta("tex01", EfkPkgFileType::Texture, "a.png", &[])];
    let r = assemble_package(&zip, "1".to_string(), entries);
    assert!(matches!(r, Err(Error::NoEffectInPackage)));
}

#[test]
fn package_missing_entry() {
    let zip = build_zip(&[("eff01", EFFECT_A)]);
    let entries = vec![
        meta("eff01", EfkPkgFileType::Effect, "a.efkefc", &[]),
        meta("gone", EfkPkgFileType::Texture, "t.png", &[]),
    ];
    match assemble_package(&zip, "1".to_string(), entries) {
        Err(Error::MissingEntry(name)) => assert_eq!(name, "gone"),
        other => panic!("unexpected: {:?}", other.map(|_| ())),
    }
}

#[test]
fn package_suspicious_names() {
    let zip = sample_archive();
    for bad in ["metafile.json", "dir/eff01", "dir\\eff01"] {
        let entries = vec![meta(bad, EfkPkgFileType::Effect, "a.efkefc", &[])];
        match assemble_package(&zip, "1".to_string(), entries) {
            Err(Error::ZipError(msg)) => {
                assert_eq!(msg, format!("suspicious entry name in metafile: {bad}"))
            }
            other => panic!("unexpected: {:?}", other.map(|_| ())),
        }
    }
}

fn file(hash: &str, file_type: EfkPkgFileType, data: &[u8]) -> EfkPkgFile {
    EfkPkgFile {
        file_type,
        relative_path: format!("{hash}.bin"),
        hash_name: hash.to_string(),
        data: data.to_vec(),
        dependencies: vec![],
    }
}

#[test]
fn package_from_files_picks_first_effect() {
    let files = vec![
        file("t", EfkPkgFileType::Texture, b"T"),
        file("e2", EfkPkgFileType::Effect, b"E2"),
        file("m", EfkPkgFileType::Model, b"M"),
        file("e1", EfkPkgFileType::Effect, b"E1"),
        file("e3", EfkPkgFileType::Effect, b"E3"),
    ];
    let pkg = package_from_files("v".to_string(), files).unwrap();
    assert_eq!(pkg.effect.hash_name, "e2");
    let extras: Vec<&str> = pkg.extra_effects.iter().map(|f| f.hash_name.as_str()).collect();
    assert_eq!(extras, vec!["e1", "e3"]);
    assert_eq!(pkg.files.len(), 5);
    assert_eq!(pkg.version, "v");
}

#[test]
fn package_from_files_without_effect() {
    let files = vec![file("t", EfkPkgFileType::Texture, b"T")];
    assert!(matches!(package_from_files("v".to_string(), files), Err(Error::NoEffectInPackage)));
    assert!(matches!(package_from_files("v".to_string(), vec![]), Err(Error::NoEffectInPackage)));
}
