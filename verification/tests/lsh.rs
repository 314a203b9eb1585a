use kite_mesh::lsh::{default_seed, pack_signature, LshParams, DEFAULT_K, DEFAULT_L};

#[test]
fn skeleton_parameters() {
    let p = LshParams::default_for_skeleton();
    assert_eq!((p.k, p.l, p.dim), (DEFAULT_K, DEFAULT_L, 384));
    assert_eq!(p.bytes_per_signature(), 1);
    assert_eq!(LshParams { k: 12, l: 1, dim: 1 }.bytes_per_signature(), 2);
    assert_eq!(LshParams { k: 16, l: 1, dim: 1 }.bytes_per_signature(), 2);
}

#[test]
fn seed_is_blake3_of_model_and_version() {
    let mut input = b"all-minilm-l6-v2-int8".to_vec();
    input.extend_from_slice(&1u32.to_le_bytes());
    assert_eq!(default_seed(), blake3::hash(&input).as_bytes().to_vec());
}

#[test]
fn bits_pack_low_bit_first() {
    let bits = vec![true, false, false, false, false, false, false, true];
    assert_eq!(pack_signature(&bits), vec![0x81]);
    let bits = vec![false, true, true, false, false, false, false, false, true, false, true];
    assert_eq!(pack_signature(&bits), vec![0x06, 0x05]);
    assert_eq!(pack_signature(&Vec::new()), Vec::<u8>::new());
}
