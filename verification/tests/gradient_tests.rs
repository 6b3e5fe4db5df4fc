use effekseer_reader::parser::gradient::parse_gradient;
use effekseer_reader::reader::BinaryReader;

#[test]
fn test_parse_gradient() {
    let mut data = Vec::new();
    data.extend_from_slice(&2i32.to_le_bytes());
    for i in 0..2 {
        let pos = i as f32;
        data.extend_from_slice(&pos.to_le_bytes());
        data.extend_from_slice(&1.0f32.to_le_bytes());
        data.extend_from_slice(&0.5f32.to_le_bytes());
        data.extend_from_slice(&0.0f32.to_le_bytes());
        data.extend_from_slice(&1.0f32.to_le_bytes());
    }
    data.extend_from_slice(&1i32.to_le_bytes());
    data.extend_from_slice(&0.0f32.to_le_bytes());
    data.extend_from_slice(&1.0f32.to_le_bytes());
    assert_eq!(data.len(), 56);
    let mut reader = BinaryReader::new(&data);
    let g = parse_gradient(&mut reader).unwrap();
    assert_eq!(g.colors.len(), 2);
    assert_eq!(g.alphas.len(), 1);
    assert!((f32::from_bits(g.colors[0].r) - 1.0).abs() < f32::EPSILON);
}

#[test]
fn gradient_counts_are_clamped() {
    // A negative count reads no key; a count above 8 reads 8 keys.
    let mut data = Vec::new();
    data.extend_from_slice(&(-3i32).to_le_bytes());
    data.extend_from_slice(&20i32.to_le_bytes());
    for i in 0..8u32 {
        data.extend_from_slice(&i.to_le_bytes());
        data.extend_from_slice(&(i + 100).to_le_bytes());
    }
    let mut reader = BinaryReader::new(&data);
    let g = parse_gradient(&mut reader).unwrap();
    assert_eq!(g.colors.len(), 0);
    assert_eq!(g.alphas.len(), 8);
    assert_eq!(g.alphas[7].position, 7);
    assert_eq!(g.alphas[7].alpha, 107);
    assert_eq!(reader.remaining(), 0);
}
