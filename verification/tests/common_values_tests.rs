use effekseer_reader::config::ParseConfig;
use effekseer_reader::parser::common_values::{parse_common_values, parse_trigger_param};
use effekseer_reader::reader::BinaryReader;
use effekseer_reader::types::enums::{GenerationTiming, TranslationParentBindType, TriggerType};

fn build_v17_common_values() -> Vec<u8> {
    let mut data = Vec::new();
    data.extend_from_slice(&80i32.to_le_bytes());
    for _ in 0..7 {
        data.extend_from_slice(&(-1i32).to_le_bytes());
    }
    data.extend_from_slice(&10i32.to_le_bytes());
    data.extend_from_slice(&2i32.to_le_bytes());
    data.extend_from_slice(&2i32.to_le_bytes());
    data.extend_from_slice(&2i32.to_le_bytes());
    data.extend_from_slice(&1i32.to_le_bytes());
    data.extend_from_slice(&0i32.to_le_bytes());
    data.extend_from_slice(&0i32.to_le_bytes());
    data.extend_from_slice(&60i32.to_le_bytes());
    data.extend_from_slice(&60i32.to_le_bytes());
    data.extend_from_slice(&1.0f32.to_le_bytes());
    data.extend_from_slice(&1.0f32.to_le_bytes());
    data.extend_from_slice(&0.0f32.to_le_bytes());
    data.extend_from_slice(&0.0f32.to_le_bytes());
    data
}

#[test]
fn test_parse_common_values_v17() {
    let data = build_v17_common_values();
    let config = ParseConfig::default();
    let mut reader = BinaryReader::new(&data);
    let cv = parse_common_values(&mut reader, 1500, &config).unwrap();
    assert_eq!(cv.max_generation, 10);
    assert_eq!(cv.life.max, 60);
    assert_eq!(cv.translation_bind_type, TranslationParentBindType::Always);
    // Bit 0: removed when life is extinct; bit 1: when the parent is removed.
    assert!(cv.removal.flags.bits & 1 != 0);
    assert!(cv.removal.flags.bits & 2 == 0);
    assert_eq!(cv.generation.type_, GenerationTiming::Continuous);
    assert_eq!(cv.generation.burst.max, 1);
}

fn build_v18_common_values() -> Vec<u8> {
    let mut data = Vec::new();
    data.extend_from_slice(&100i32.to_le_bytes());
    for _ in 0..9 {
        data.extend_from_slice(&(-1i32).to_le_bytes());
    }
    data.extend_from_slice(&5i32.to_le_bytes());
    data.extend_from_slice(&2i32.to_le_bytes());
    data.extend_from_slice(&2i32.to_le_bytes());
    data.extend_from_slice(&2i32.to_le_bytes());
    data.extend_from_slice(&0i32.to_le_bytes());
    data.extend_from_slice(&1i32.to_le_bytes());
    data.extend_from_slice(&100i32.to_le_bytes());
    data.extend_from_slice(&50i32.to_le_bytes());
    data.extend_from_slice(&2.0f32.to_le_bytes());
    data.extend_from_slice(&1.0f32.to_le_bytes());
    data.extend_from_slice(&0.0f32.to_le_bytes());
    data.extend_from_slice(&0.0f32.to_le_bytes());
    data.extend_from_slice(&3i32.to_le_bytes());
    data.extend_from_slice(&1i32.to_le_bytes());
    for _ in 0..4 {
        data.extend_from_slice(&0u16.to_le_bytes());
    }
    data
}

#[test]
fn test_parse_common_values_v18() {
    let data = build_v18_common_values();
    let config = ParseConfig::default();
    let mut reader = BinaryReader::new(&data);
    let cv = parse_common_values(&mut reader, 1802, &config).unwrap();
    assert_eq!(cv.max_generation, 5);
    assert_eq!(cv.life.max, 100);
    assert_eq!(cv.life.min, 50);
    assert_eq!(cv.generation.burst.max, 3);
    assert_eq!(cv.generation.type_, GenerationTiming::Continuous);
}

// ---- further cases

#[test]
fn common_values_skip_unread_block_bytes() {
    let mut data = build_v17_common_values();
    data[0..4].copy_from_slice(&88i32.to_le_bytes());
    data.extend_from_slice(&[0xAA; 8]);
    data.extend_from_slice(&0x1234i32.to_le_bytes());
    let mut reader = BinaryReader::new(&data);
    parse_common_values(&mut reader, 1500, &ParseConfig::default()).unwrap();
    assert_eq!(reader.read_i32().unwrap(), 0x1234);
}

#[test]
fn trigger_block_of_version_1701() {
    let data = build_v17_common_values();
    let mut reader = BinaryReader::new(&data);
    let mut cv = parse_common_values(&mut reader, 1701, &ParseConfig::default()).unwrap();
    // Flags: start (bit 0) and remove (bit 2); each trigger is (type, index).
    let triggers = [0b101u8, 1, 3, 1, 4];
    let mut r2 = BinaryReader::new(&triggers);
    parse_trigger_param(&mut r2, 1701, &mut cv).unwrap();
    assert_eq!(cv.generation.trigger_to_start.type_, TriggerType::ExternalTrigger);
    assert_eq!(cv.generation.trigger_to_start.index, 3);
    assert_eq!(cv.generation.trigger_to_stop.type_, TriggerType::NoTrigger);
    assert_eq!(cv.removal.trigger_to_remove.index, 4);
    assert!(cv.removal.flags.bits & 8 != 0);
    assert_eq!(r2.remaining(), 0);
}

#[test]
fn trigger_block_absent_for_other_versions() {
    let data = build_v18_common_values();
    let mut reader = BinaryReader::new(&data);
    let mut cv = parse_common_values(&mut reader, 1802, &ParseConfig::default()).unwrap();
    let before = cv;
    let bytes = [0xFFu8];
    let mut r2 = BinaryReader::new(&bytes);
    parse_trigger_param(&mut r2, 1802, &mut cv).unwrap();
    assert_eq!(cv, before);
    assert_eq!(r2.position(), 0);
}
