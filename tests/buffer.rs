use sph_fluid::buffer::{pack_positions, pack_words};

#[test]
fn one_point_is_packed_little_endian() {
    let bytes = pack_positions(&vec![(0x0403_0201, 0x0807_0605)]);
    assert_eq!(bytes, vec![1, 2, 3, 4, 5, 6, 7, 8]);
}

#[test]
fn float_positions_keep_their_bit_patterns() {
    let points = [(1.0f32, -0.5f32), (0.25f32, 0.75f32)];
    let bits: Vec<(u32, u32)> = points.iter().map(|p| (p.0.to_bits(), p.1.to_bits())).collect();
    let bytes = pack_positions(&bits);
    let mut expected = Vec::new();
    for p in points.iter() {
        expected.extend_from_slice(&p.0.to_le_bytes());
        expected.extend_from_slice(&p.1.to_le_bytes());
    }
    assert_eq!(bytes, expected);
}

#[test]
fn buffer_holds_eight_bytes_per_particle() {
    let points: Vec<(u32, u32)> = (0..1024u32).map(|k| (k, u32::MAX - k)).collect();
    let bytes = pack_positions(&points);
    assert_eq!(bytes.len(), 1024 * 8);
    assert_eq!(&bytes[8..16], &[1, 0, 0, 0, 0xfe, 0xff, 0xff, 0xff]);
}

#[test]
fn empty_system_packs_to_an_empty_buffer() {
    assert!(pack_positions(&Vec::new()).is_empty());
}

#[test]
fn words_are_packed_little_endian() {
    let bytes = pack_words(&vec![0x0403_0201, 0xdead_beef]);
    assert_eq!(bytes, vec![1, 2, 3, 4, 0xef, 0xbe, 0xad, 0xde]);
}

#[test]
fn densities_keep_their_bit_patterns() {
    let densities = [0.0f32, 1.5f32, -10.0f32];
    let bits: Vec<u32> = densities.iter().map(|d| d.to_bits()).collect();
    let expected: Vec<u8> = densities.iter().flat_map(|d| d.to_le_bytes()).collect();
    assert_eq!(pack_words(&bits), expected);
}

#[test]
fn no_words_pack_to_an_empty_buffer() {
    assert!(pack_words(&Vec::new()).is_empty());
}
