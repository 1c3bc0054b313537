use cpair::planes::CPair;
use cpair::sprite::CPairChunk;

fn decode_one(odd: &[u8], even: &[u8]) -> [u8; 256] {
    CPairChunk::new(odd, even).expect("one chunk of each plane").parse_sprite()
}

#[test]
fn single_low_bit_of_first_odd_byte() {
    let mut odd = vec![0u8; 64];
    odd[0] = 0b0000_0001;
    let even = vec![0u8; 64];
    let pixels = decode_one(&odd, &even);
    assert_eq!(pixels[0], 1);
    for p in 1..256 {
        assert_eq!(pixels[p], 0, "pixel {}", p);
    }
}

#[test]
fn all_zero_planes_decode_to_zero() {
    let zeros = vec![0u8; 64];
    let pixels = decode_one(&zeros, &zeros);
    assert!(pixels.iter().all(|&p| p == 0));
}

#[test]
fn all_ones_planes_decode_to_fifteen() {
    let ones = vec![0xFFu8; 64];
    let pixels = decode_one(&ones, &ones);
    assert!(pixels.iter().all(|&p| p == 15));
}

#[test]
fn each_plane_byte_feeds_its_own_index_bit() {
    // Bit 3 of bp1 (odd[3]) lands in index bit 1 at position 8 * 1 + 3.
    let mut odd = vec![0u8; 64];
    odd[3] = 0b0000_1000;
    let mut even = vec![0u8; 64];
    // Bit 7 of bp2 (even[62]) lands in index bit 2 at position 8 * 31 + 7.
    even[62] = 0b1000_0000;
    // Bit 0 of bp3 (even[1]) lands in index bit 3 at position 0.
    even[1] = 0b0000_0001;
    let pixels = decode_one(&odd, &even);
    assert_eq!(pixels[11], 2);
    assert_eq!(pixels[255], 4);
    assert_eq!(pixels[0], 8);
    let set = pixels.iter().filter(|&&p| p != 0).count();
    assert_eq!(set, 3);
}

#[test]
fn mixed_bytes_give_exact_indices() {
    let mut odd = vec![0u8; 64];
    let mut even = vec![0u8; 64];
    odd[0] = 0b1010_1010;
    odd[1] = 0b1100_1100;
    even[0] = 0b1111_0000;
    even[1] = 0b0000_1111;
    let pixels = decode_one(&odd, &even);
    let expected: [u8; 8] = [8, 9, 10, 11, 4, 5, 6, 7];
    assert_eq!(&pixels[0..8], &expected);
    assert!(pixels[8..].iter().all(|&p| p == 0));
}

#[test]
fn decoding_is_total_and_repeatable() {
    let odd: Vec<u8> = (0..64u32).map(|i| (i * 37 + 11) as u8).collect();
    let even: Vec<u8> = (0..64u32).map(|i| (i * 91 + 5) as u8).collect();
    let first = decode_one(&odd, &even);
    let second = decode_one(&odd, &even);
    assert_eq!(first.len(), 256);
    assert!(first.iter().all(|&p| p < 16));
    assert_eq!(first, second);
}

#[test]
fn chunk_pair_needs_exactly_one_chunk_each() {
    let a = vec![0u8; 64];
    let b = vec![0u8; 63];
    let c = vec![0u8; 128];
    assert!(CPairChunk::new(&a, &a).is_some());
    assert!(CPairChunk::new(&a, &b).is_none());
    assert!(CPairChunk::new(&c, &a).is_none());
}

#[test]
fn sequencer_counts_shorter_plane() {
    let cpair = CPair { odd: vec![0u8; 64 * 5], even: vec![0u8; 64 * 3] };
    let mut it = cpair.chunks();
    let mut n = 0;
    while it.next().is_some() {
        n += 1;
    }
    assert_eq!(n, 3);
    assert!(it.next().is_none());
    assert_eq!(cpair.sprites().len(), 3);
}

#[test]
fn sequencer_empty_when_a_plane_is_short() {
    let cpair = CPair { odd: vec![0u8; 63], even: vec![0u8; 640] };
    assert!(cpair.chunks().next().is_none());
    assert!(cpair.sprites().is_empty());
    let empty = CPair::default();
    assert!(empty.sprites().is_empty());
}

#[test]
fn sequencer_drops_trailing_partial_chunk() {
    let cpair = CPair { odd: vec![0u8; 64 * 2 + 10], even: vec![0u8; 64 * 4] };
    assert_eq!(cpair.sprites().len(), 2);
}

#[test]
fn sequencer_hands_out_chunks_in_order() {
    let mut odd = vec![0u8; 128];
    let mut even = vec![0u8; 128];
    odd[64] = 0xFF;
    even[65] = 0x01;
    let cpair = CPair { odd, even };
    let sprites = cpair.sprites();
    assert_eq!(sprites.len(), 2);
    assert!(sprites[0].iter().all(|&p| p == 0));
    assert_eq!(sprites[1][0], 9);
    assert!(sprites[1][1..8].iter().all(|&p| p == 1));
    assert!(sprites[1][8..].iter().all(|&p| p == 0));
}

#[test]
fn pipeline_runs_twice_identically() {
    let odd: Vec<u8> = (0..256u32).map(|i| (i * 7) as u8).collect();
    let even: Vec<u8> = (0..256u32).map(|i| (255 - i) as u8).collect();
    let cpair = CPair { odd, even };
    let first = cpair.sprites();
    let second = cpair.sprites();
    assert_eq!(first.len(), 4);
    assert_eq!(first, second);
    let mut it = cpair.chunks();
    for sprite in &first {
        assert_eq!(&it.next().unwrap().parse_sprite(), sprite);
    }
    assert!(it.next().is_none());
}
