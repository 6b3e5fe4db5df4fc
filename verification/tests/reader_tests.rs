use effekseer_reader::config::{ParseConfig, UnknownEnumBehavior};
use effekseer_reader::error::Error;
use effekseer_reader::reader::BinaryReader;
use effekseer_reader::types::enums::{AlphaBlendType, ColorMode};
use effekseer_reader::types::primitives::{Color, Vector3D};

#[test]
fn test_read_i32() {
    let data = 42i32.to_le_bytes();
    let mut r = BinaryReader::new(&data);
    assert_eq!(r.read_i32().unwrap(), 42);
    assert_eq!(r.remaining(), 0);
}

#[test]
fn test_read_f32() {
    let data = 1.25f32.to_le_bytes();
    let mut r = BinaryReader::new(&data);
    let val = f32::from_bits(r.read_f32().unwrap());
    assert!((val - 1.25).abs() < f32::EPSILON);
}

#[test]
fn test_read_utf16_string() {
    let text = "Hello";
    let chars: Vec<u16> = text.encode_utf16().collect();
    let mut data = (chars.len() as i32).to_le_bytes().to_vec();
    for c in &chars {
        data.extend_from_slice(&c.to_le_bytes());
    }
    let mut r = BinaryReader::new(&data);
    assert_eq!(r.read_utf16_string().unwrap(), "Hello");
}

#[test]
fn test_read_utf16_string_trims_null() {
    let chars: Vec<u16> = vec![0x48, 0x69, 0x00];
    let mut data = (chars.len() as i32).to_le_bytes().to_vec();
    for c in &chars {
        data.extend_from_slice(&c.to_le_bytes());
    }
    let mut r = BinaryReader::new(&data);
    assert_eq!(r.read_utf16_string().unwrap(), "Hi");
}

#[test]
fn test_read_ascii_string() {
    let text = b"BaseColor";
    let mut data = (text.len() as i32).to_le_bytes().to_vec();
    data.extend_from_slice(text);
    let mut r = BinaryReader::new(&data);
    assert_eq!(r.read_ascii_string().unwrap(), "BaseColor");
}

#[test]
fn test_read_enum_known() {
    let data = 2i32.to_le_bytes();
    let config = ParseConfig::default();
    let mut r = BinaryReader::new(&data);
    let val: AlphaBlendType = r.read_enum(&config, "test").unwrap();
    assert_eq!(val, AlphaBlendType::Add);
}

#[test]
fn test_read_enum_unknown_error() {
    let data = 99i32.to_le_bytes();
    let config = ParseConfig::default();
    let mut r = BinaryReader::new(&data);
    let result: Result<AlphaBlendType, _> = r.read_enum(&config, "test");
    assert!(result.is_err());
}

#[test]
fn test_read_enum_unknown_warn() {
    let data = 99i32.to_le_bytes();
    let config = ParseConfig { unknown_enum_behavior: UnknownEnumBehavior::Warn, ..Default::default() };
    let mut r = BinaryReader::new(&data);
    let val: AlphaBlendType = r.read_enum(&config, "test").unwrap();
    assert_eq!(val, AlphaBlendType::Unknown(99));
}

#[test]
fn test_unexpected_eof() {
    let data = [0u8; 2];
    let mut r = BinaryReader::new(&data);
    assert!(r.read_i32().is_err());
}

#[test]
fn test_read_vector3d() {
    let mut data = Vec::new();
    data.extend_from_slice(&1.0f32.to_le_bytes());
    data.extend_from_slice(&2.0f32.to_le_bytes());
    data.extend_from_slice(&3.0f32.to_le_bytes());
    let mut r = BinaryReader::new(&data);
    let v = r.read_vector3d().unwrap();
    assert_eq!(v, Vector3D { x: 1.0f32.to_bits(), y: 2.0f32.to_bits(), z: 3.0f32.to_bits() });
}

#[test]
fn test_read_color() {
    let data = [255, 128, 64, 32];
    let mut r = BinaryReader::new(&data);
    let c = r.read_color().unwrap();
    assert_eq!(c, Color { r: 255, g: 128, b: 64, a: 32 });
}

#[test]
fn test_read_random_color() {
    let data = [0, 0, 255, 0, 0, 255, 0, 0, 0, 255];
    let config = ParseConfig::default();
    let mut r = BinaryReader::new(&data);
    let rc = r.read_random_color(&config).unwrap();
    assert_eq!(rc.mode, ColorMode::Rgba);
    assert_eq!(rc.max, Color { r: 255, g: 0, b: 0, a: 255 });
    assert_eq!(rc.min, Color { r: 0, g: 0, b: 0, a: 255 });
}

#[test]
fn test_skip() {
    let data = [0u8; 10];
    let mut r = BinaryReader::new(&data);
    r.skip(5).unwrap();
    assert_eq!(r.position(), 5);
    assert_eq!(r.remaining(), 5);
    assert!(r.skip(6).is_err());
}

// ---- further cases

#[test]
fn eof_error_reports_position_and_size() {
    let data = [1u8, 2, 3, 4, 5, 6];
    let mut r = BinaryReader::new(&data);
    r.skip(4).unwrap();
    assert_eq!(r.read_i32(), Err(Error::UnexpectedEof { position: 4, expected_bytes: 4 }));
    // A failed read leaves the position where it was.
    assert_eq!(r.position(), 4);
    assert_eq!(r.read_u16().unwrap(), 0x0605);
}

#[test]
fn little_endian_integers() {
    let data = [0x78u8, 0x56, 0x34, 0x12, 0xFF, 0xFF, 0xFF, 0xFF];
    let mut r = BinaryReader::new(&data);
    assert_eq!(r.read_u32().unwrap(), 0x1234_5678);
    assert_eq!(r.read_i32().unwrap(), -1);
    let mut r2 = BinaryReader::new(&data);
    assert_eq!(r2.read_f64().unwrap(), 0xFFFF_FFFF_1234_5678u64);
}

#[test]
fn i32_as_bool_is_nonzero() {
    let data = [0u8, 0, 0, 0, 2, 0, 0, 0];
    let mut r = BinaryReader::new(&data);
    assert!(!r.read_i32_as_bool().unwrap());
    assert!(r.read_i32_as_bool().unwrap());
}

#[test]
fn enum_u8_unknown_is_rejected_or_kept() {
    let data = [7u8];
    let strict = ParseConfig::default();
    let mut r = BinaryReader::new(&data);
    let res: Result<ColorMode, Error> = r.read_enum_u8(&strict, "mode");
    assert_eq!(res, Err(Error::InvalidEnumValue { field: "mode", value: 7 }));
    let lenient = ParseConfig { unknown_enum_behavior: UnknownEnumBehavior::Warn, ..Default::default() };
    let mut r = BinaryReader::new(&data);
    let v: ColorMode = r.read_enum_u8(&lenient, "mode").unwrap();
    assert_eq!(v, ColorMode::Unknown(7));
}

#[test]
fn utf16_unpaired_surrogate_is_an_error() {
    let mut data = 1i32.to_le_bytes().to_vec();
    data.extend_from_slice(&0xD800u16.to_le_bytes());
    let mut r = BinaryReader::new(&data);
    assert_eq!(r.read_utf16_string(), Err(Error::Utf16DecodeError { position: 4 }));
}

#[test]
fn utf8_invalid_is_an_error() {
    let mut data = 2i32.to_le_bytes().to_vec();
    data.extend_from_slice(&[0xC3, 0x28]);
    let mut r = BinaryReader::new(&data);
    assert_eq!(r.read_ascii_string(), Err(Error::Utf8DecodeError { position: 4 }));
}

#[test]
fn read_bytes_and_sizes() {
    let data = [9u8, 8, 7];
    let mut r = BinaryReader::new(&data);
    assert_eq!(r.len(), 3);
    assert!(!r.is_empty());
    assert_eq!(r.read_bytes(2).unwrap(), &[9u8, 8][..]);
    assert_eq!(r.read_u8().unwrap(), 7);
    assert!(BinaryReader::new(&[]).is_empty());
}

#[test]
fn composite_reads() {
    let mut data = Vec::new();
    for v in [1i32, 2, -3, -4] {
        data.extend_from_slice(&v.to_le_bytes());
    }
    let mut r = BinaryReader::new(&data);
    let rmm = r.read_ref_min_max().unwrap();
    assert_eq!((rmm.max, rmm.min), (1, 2));
    let ri = r.read_random_int().unwrap();
    assert_eq!((ri.max, ri.min), (-3, -4));
}

#[test]
fn failed_reads_leave_the_position() {
    let data = [0u8; 10];
    let mut r = BinaryReader::new(&data);
    r.skip(5).unwrap();
    assert_eq!(r.skip(6), Err(Error::UnexpectedEof { position: 5, expected_bytes: 6 }));
    assert_eq!(r.position(), 5);
    assert!(r.read_bytes(6).is_err());
    assert_eq!(r.position(), 5);
    r.skip(4).unwrap();
    assert_eq!(r.read_u16(), Err(Error::UnexpectedEof { position: 9, expected_bytes: 2 }));
    assert_eq!(r.position(), 9);
}

#[test]
fn rejected_enum_codes_are_consumed() {
    let mut data = 99i32.to_le_bytes().to_vec();
    data.push(99);
    let config = ParseConfig::default();
    let mut r = BinaryReader::new(&data);
    let result: Result<AlphaBlendType, _> = r.read_enum(&config, "test");
    assert_eq!(result, Err(Error::InvalidEnumValue { field: "test", value: 99 }));
    assert_eq!(r.position(), 4);
    let result: Result<AlphaBlendType, _> = r.read_enum_u8(&config, "test8");
    assert_eq!(result, Err(Error::InvalidEnumValue { field: "test8", value: 99 }));
    assert_eq!(r.position(), 5);
    let result: Result<AlphaBlendType, _> = r.read_enum(&config, "test");
    assert!(result.is_err());
    assert_eq!(r.position(), 5);
}

#[test]
fn u32_and_i32_round_trip() {
    for x in [0u32, 1, 0x1234_5678, u32::MAX] {
        assert_eq!(BinaryReader::new(&x.to_le_bytes()).read_u32(), Ok(x));
    }
    for y in [0i32, -1, i32::MIN, i32::MAX, 42] {
        let bytes = y.to_le_bytes();
        let mut a = BinaryReader::new(&bytes);
        let mut b = BinaryReader::new(&bytes);
        assert_eq!(a.read_i32(), Ok(y));
        assert_eq!(b.read_u32().map(|v| v as i32), Ok(y));
        assert_eq!(a.position(), b.position());
    }
}
