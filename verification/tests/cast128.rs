use crypto::cast128::{Cast128, KeyError};
use crypto::cast128_sboxes::{lookup, SBOXES, SBOX_COUNT, SBOX_SIZE};
use crypto::key_schedule::{
    CAST5_BLOCK_SIZE, CAST5_EXT_KEY_SIZE, CAST5_KEY_SIZE, CAST5_SHORT_KEY_SIZE,
};

const DEMO_KEY: &[u8; 16] = b"C238xs65pjy7HU9Q";

const VECTOR_KEY: [u8; 16] = [
    0x01, 0x23, 0x45, 0x67, 0x12, 0x34, 0x56, 0x78, 0x23, 0x45, 0x67, 0x89, 0x34, 0x56, 0x78, 0x9A,
];

const VECTOR_PLAINTEXT: [u8; 8] = [0x01, 0x23, 0x45, 0x67, 0x89, 0xAB, 0xCD, 0xEF];

fn keyed(key: &[u8]) -> Cast128 {
    let mut state = Cast128::default();
    assert_eq!(state.generate_key(key), Ok(()));
    state
}

fn schedule_of(key: &[u8]) -> Vec<u32> {
    keyed(key).key().clone()
}

fn byte_of(word: u32, shift: u32) -> u8 {
    ((word >> shift) & 0xFF) as u8
}

/// One block through the cipher's rounds, driven by a generated schedule: the
/// rotation subkeys are stored with a bias of 16, which is taken off here.
fn encrypt_block(state: &Cast128, block: [u8; 8]) -> [u8; 8] {
    let schedule: &Vec<u32> = state.key();
    let rounds: usize = if state.short_key() { 12 } else { 16 };
    let mut left: u32 = u32::from_be_bytes([block[0], block[1], block[2], block[3]]);
    let mut right: u32 = u32::from_be_bytes([block[4], block[5], block[6], block[7]]);
    for round in 0..rounds {
        let masking: u32 = schedule[2 * round];
        let rotate: u32 = (schedule[2 * round + 1] + 16) % 32;
        let mixed: u32;
        match round % 3 {
            0 => {
                let i: u32 = masking.wrapping_add(right).rotate_left(rotate);
                mixed = (lookup(0, byte_of(i, 24)) ^ lookup(1, byte_of(i, 16)))
                    .wrapping_sub(lookup(2, byte_of(i, 8)))
                    .wrapping_add(lookup(3, byte_of(i, 0)));
            }
            1 => {
                let i: u32 = (masking ^ right).rotate_left(rotate);
                mixed = lookup(0, byte_of(i, 24))
                    .wrapping_sub(lookup(1, byte_of(i, 16)))
                    .wrapping_add(lookup(2, byte_of(i, 8)))
                    ^ lookup(3, byte_of(i, 0));
            }
            _ => {
                let i: u32 = masking.wrapping_sub(right).rotate_left(rotate);
                mixed = (lookup(0, byte_of(i, 24)).wrapping_add(lookup(1, byte_of(i, 16)))
                    ^ lookup(2, byte_of(i, 8)))
                .wrapping_sub(lookup(3, byte_of(i, 0)));
            }
        }
        let next: u32 = left ^ mixed;
        left = right;
        right = next;
    }
    let high: [u8; 4] = right.to_be_bytes();
    let low: [u8; 4] = left.to_be_bytes();
    [high[0], high[1], high[2], high[3], low[0], low[1], low[2], low[3]]
}

fn encrypt_halves(state: &Cast128, data: &mut [u8; 16]) {
    let mut first: [u8; 8] = [0u8; 8];
    let mut second: [u8; 8] = [0u8; 8];
    first.copy_from_slice(&data[0..8]);
    second.copy_from_slice(&data[8..16]);
    data[0..8].copy_from_slice(&encrypt_block(state, first));
    data[8..16].copy_from_slice(&encrypt_block(state, second));
}

fn maintenance_run(iterations: usize) -> ([u8; 16], [u8; 16]) {
    let mut a: [u8; 16] = VECTOR_KEY;
    let mut b: [u8; 16] = VECTOR_KEY;
    for _ in 0..iterations {
        let state: Cast128 = keyed(&b);
        encrypt_halves(&state, &mut a);
        let state: Cast128 = keyed(&a);
        encrypt_halves(&state, &mut b);
    }
    (a, b)
}

#[test]
fn cipher_generate_key_success() {
    let mut cast128 = Cast128::default();
    let outcome = cast128.generate_key(b"C238xs65pjy7HU9Q");
    assert!(outcome.is_ok());
    assert_eq!(cast128.key().len(), 32);
    assert!(!cast128.short_key());
}

#[test]
fn demo_key_schedule_is_fixed() {
    let expected: [u32; 32] = [
        0xc8657891, 0x00000012, 0x285c4a56, 0x0000000f,
        0x3878fa13, 0x0000001a, 0xe27fa0ab, 0x0000000d,
        0x9ba01453, 0x00000004, 0xa35b6bfc, 0x00000019,
        0x2da0f265, 0x0000000a, 0x0c1dfaa9, 0x0000000e,
        0xad5b67ce, 0x00000002, 0xad512399, 0x0000000e,
        0x99dba560, 0x0000001e, 0xa493ad57, 0x00000017,
        0x1b26ad81, 0x00000002, 0x09bdd787, 0x00000013,
        0x99bcbbfb, 0x0000000f, 0x0e51ff80, 0x0000001f,
    ];
    assert_eq!(schedule_of(DEMO_KEY), expected.to_vec());
}

#[test]
fn demo_key_with_trailing_byte_is_truncated() {
    let mut long_key: Vec<u8> = DEMO_KEY.to_vec();
    long_key.push(0);
    assert_eq!(long_key.len(), 17);
    let state: Cast128 = keyed(&long_key);
    assert_eq!(state.key(), &schedule_of(DEMO_KEY));
    assert!(!state.short_key());
}

#[test]
fn schedule_of_128_bit_vector_key() {
    let expected: [u32; 32] = [
        0xbc173e26, 0x00000005, 0x78a207ef, 0x0000000b,
        0xece0a7f5, 0x00000011, 0x7cb0fb6b, 0x00000015,
        0xa5d2d636, 0x00000013, 0xd78b9407, 0x0000000f,
        0x56c069d3, 0x0000000f, 0x82e8240c, 0x0000000c,
        0x33543749, 0x00000000, 0x8813d5c7, 0x0000000f,
        0xb9fcd732, 0x00000002, 0x59106b36, 0x00000011,
        0x496af1a9, 0x0000000d, 0x18f8dc43, 0x00000009,
        0x8d9def0f, 0x00000011, 0x83eda384, 0x0000001f,
    ];
    let state: Cast128 = keyed(&VECTOR_KEY);
    assert_eq!(state.key(), &expected.to_vec());
    assert!(!state.short_key());
}

#[test]
fn schedule_of_80_bit_vector_key() {
    let expected: [u32; 32] = [
        0x4b6fbdce, 0x00000001, 0xc81adce2, 0x00000019,
        0xbbbeac38, 0x00000001, 0x02e7d426, 0x00000002,
        0x1873826d, 0x00000018, 0x771f00b0, 0x00000007,
        0x6d72065f, 0x0000000c, 0xade85997, 0x00000017,
        0x7f18dab5, 0x00000010, 0x9e91fa3a, 0x00000005,
        0xe0d8a825, 0x00000016, 0x57635838, 0x0000001d,
        0x1fa0ae11, 0x00000019, 0x408eedad, 0x0000000a,
        0xcd7dd6ff, 0x0000000d, 0x79b05632, 0x00000012,
    ];
    let state: Cast128 = keyed(&VECTOR_KEY[0..10]);
    assert_eq!(state.key(), &expected.to_vec());
    assert!(state.short_key());
}

#[test]
fn schedule_of_40_bit_vector_key() {
    let expected: [u32; 32] = [
        0x58e052bd, 0x00000013, 0xd39efe0c, 0x00000006,
        0x54773f0b, 0x00000009, 0xce6250eb, 0x0000001a,
        0x97674c58, 0x0000000a, 0x8c921ee3, 0x00000006,
        0x5e2f00f1, 0x0000001d, 0xdc6f753e, 0x00000015,
        0xb7066228, 0x0000000a, 0x7a246029, 0x00000019,
        0x2bd96f8e, 0x0000000f, 0x66b97ff0, 0x0000000d,
        0xd88fe290, 0x0000001e, 0x222ea7e6, 0x00000001,
        0x611d543d, 0x00000001, 0x1d086bc0, 0x0000001b,
    ];
    let state: Cast128 = keyed(&VECTOR_KEY[0..5]);
    assert_eq!(state.key(), &expected.to_vec());
    assert!(state.short_key());
}

#[test]
fn schedule_of_single_zero_byte() {
    let expected: [u32; 32] = [
        0x45153549, 0x00000004, 0x5b8e937f, 0x0000001e,
        0x8ede3a96, 0x0000001b, 0x31ef27a5, 0x0000001d,
        0xcb21df90, 0x00000006, 0x210788e8, 0x00000016,
        0xf036ee39, 0x00000009, 0x9e3cd479, 0x00000005,
        0xdfa3cafc, 0x00000009, 0x0a2e96be, 0x0000001e,
        0x60aa5d8b, 0x00000006, 0x4c1eb29c, 0x0000000f,
        0xde77ef9f, 0x0000000e, 0x7960b0b5, 0x0000000e,
        0x53873fb0, 0x0000001c, 0xe508a6b6, 0x00000006,
    ];
    assert_eq!(schedule_of(&[0u8]), expected.to_vec());
}

#[test]
fn known_answer_128_bit_key() {
    let state: Cast128 = keyed(&VECTOR_KEY);
    assert_eq!(
        encrypt_block(&state, VECTOR_PLAINTEXT),
        [0x23, 0x8B, 0x4F, 0xE5, 0x84, 0x7E, 0x44, 0xB2]
    );
}

#[test]
fn known_answer_80_bit_key() {
    let state: Cast128 = keyed(&VECTOR_KEY[0..10]);
    assert_eq!(
        encrypt_block(&state, VECTOR_PLAINTEXT),
        [0xEB, 0x6A, 0x71, 0x1A, 0x2C, 0x02, 0x27, 0x1B]
    );
}

#[test]
fn known_answer_40_bit_key() {
    let state: Cast128 = keyed(&VECTOR_KEY[0..5]);
    assert_eq!(
        encrypt_block(&state, VECTOR_PLAINTEXT),
        [0x7A, 0xC8, 0x16, 0xD1, 0x6E, 0x9B, 0x30, 0x2E]
    );
}

#[test]
fn known_answer_maintenance_run() {
    let (a, b) = maintenance_run(1_000_000);
    assert_eq!(
        a,
        [
            0xEE, 0xA9, 0xD0, 0xA2, 0x49, 0xFD, 0x3B, 0xA6, 0xB3, 0x43, 0x6F, 0xB8, 0x9D, 0x6D,
            0xCA, 0x92
        ]
    );
    assert_eq!(
        b,
        [
            0xB2, 0xC9, 0x5E, 0xB0, 0x0C, 0x31, 0xAD, 0x71, 0x80, 0xAC, 0x05, 0xB8, 0xE8, 0x3D,
            0x69, 0x6E
        ]
    );
}

#[test]
fn every_key_length_gives_32_words() {
    let material: Vec<u8> = (1u8..=40u8).collect();
    for length in 1..=40usize {
        let state: Cast128 = keyed(&material[0..length]);
        assert_eq!(state.key().len(), CAST5_EXT_KEY_SIZE);
    }
}

#[test]
fn long_keys_equal_their_first_sixteen_bytes() {
    let material: Vec<u8> = (0u8..64u8).map(|v| v.wrapping_mul(37).wrapping_add(11)).collect();
    let reference: Vec<u32> = schedule_of(&material[0..CAST5_KEY_SIZE]);
    for length in 17..=64usize {
        let state: Cast128 = keyed(&material[0..length]);
        assert_eq!(state.key(), &reference);
        assert!(!state.short_key());
    }
}

#[test]
fn bytes_past_the_sixteenth_do_not_matter() {
    let mut long_key: Vec<u8> = DEMO_KEY.to_vec();
    long_key.extend_from_slice(&[0xFF, 0x00, 0x55]);
    let reference: Vec<u32> = schedule_of(&long_key);
    long_key[16] ^= 0x01;
    long_key[18] = 0xAA;
    assert_eq!(schedule_of(&long_key), reference);
}

#[test]
fn short_keys_are_zero_padded() {
    let short: [u8; 5] = [0x01, 0x23, 0x45, 0x67, 0x12];
    let mut padded: [u8; 16] = [0u8; 16];
    padded[0..5].copy_from_slice(&short);
    let from_short: Cast128 = keyed(&short);
    let from_padded: Cast128 = keyed(&padded);
    assert_eq!(from_short.key(), from_padded.key());
    assert!(from_short.short_key());
    assert!(!from_padded.short_key());
}

#[test]
fn rotation_subkeys_are_below_32() {
    let material: Vec<u8> = (0u8..32u8).map(|v| v.wrapping_mul(151).wrapping_add(7)).collect();
    for length in 1..=32usize {
        let schedule: Vec<u32> = schedule_of(&material[0..length]);
        for i in 0..16usize {
            assert!(schedule[2 * i + 1] <= 31);
        }
    }
}

#[test]
fn masking_subkeys_use_the_full_word() {
    let schedule: Vec<u32> = schedule_of(DEMO_KEY);
    assert!((0..16usize).any(|i| schedule[2 * i] > 31));
    assert_eq!(schedule[0], 0xc8657891);
    assert_eq!(schedule[1], 0x12);
}

#[test]
fn short_key_boundary_ten_is_short() {
    let state: Cast128 = keyed(&[7u8; 10]);
    assert!(state.short_key());
    assert_eq!(CAST5_SHORT_KEY_SIZE, 10);
}

#[test]
fn short_key_boundary_eleven_is_not_short() {
    let state: Cast128 = keyed(&[7u8; 11]);
    assert!(!state.short_key());
}

#[test]
fn short_key_flag_for_every_length() {
    let material: [u8; 40] = [0x5Au8; 40];
    for length in 1..=40usize {
        let state: Cast128 = keyed(&material[0..length]);
        assert_eq!(state.short_key(), length <= 10);
    }
}

#[test]
fn empty_key_is_refused() {
    let mut state = Cast128::default();
    let outcome: Result<(), KeyError> = state.generate_key(&[]);
    assert_eq!(outcome, Err(KeyError::KeyMaterialRequired));
    assert_eq!(KeyError::KeyMaterialRequired.message(), "key cannot be empty");
}

#[test]
fn empty_key_leaves_a_fresh_state_untouched() {
    let mut state = Cast128::default();
    assert!(state.generate_key(&[]).is_err());
    assert!(state.key().is_empty());
    assert!(!state.short_key());
    assert!(state.encrypt_iv().is_empty());
    assert!(state.decrypt_iv().is_empty());
    assert_eq!(state.encrypt_num(), 0);
    assert_eq!(state.decrypt_num(), 0);
}

#[test]
fn empty_key_leaves_a_keyed_state_untouched() {
    let mut state: Cast128 = keyed(&VECTOR_KEY[0..5]);
    let before: Vec<u32> = state.key().clone();
    assert!(state.generate_key(&[]).is_err());
    assert_eq!(state.key(), &before);
    assert!(state.short_key());
    assert_eq!(state.encrypt_iv(), &vec![0u8; 8]);
    assert_eq!(state.decrypt_iv(), &vec![0u8; 8]);
}

#[test]
fn default_state_holds_nothing() {
    let state = Cast128::default();
    assert!(state.key().is_empty());
    assert!(!state.short_key());
    assert_eq!(state.encrypt_num(), 0);
    assert_eq!(state.decrypt_num(), 0);
    assert!(state.encrypt_iv().is_empty());
    assert!(state.decrypt_iv().is_empty());
}

#[test]
fn generation_resets_the_stream_state() {
    let state: Cast128 = keyed(DEMO_KEY);
    assert_eq!(state.encrypt_num(), 0);
    assert_eq!(state.decrypt_num(), 0);
    assert_eq!(state.encrypt_iv(), &vec![0u8; CAST5_BLOCK_SIZE]);
    assert_eq!(state.decrypt_iv(), &vec![0u8; CAST5_BLOCK_SIZE]);
}

#[test]
fn generation_is_deterministic() {
    let first: Cast128 = keyed(DEMO_KEY);
    let second: Cast128 = keyed(DEMO_KEY);
    assert_eq!(first.key(), second.key());
    assert_eq!(first.short_key(), second.short_key());
    let mut reused: Cast128 = keyed(&VECTOR_KEY);
    assert_eq!(reused.generate_key(DEMO_KEY), Ok(()));
    assert_eq!(reused.key(), first.key());
    assert_eq!(reused.generate_key(DEMO_KEY), Ok(()));
    assert_eq!(reused.key(), first.key());
}

#[test]
fn rekeying_replaces_the_schedule() {
    let mut state: Cast128 = keyed(&VECTOR_KEY[0..5]);
    assert!(state.short_key());
    assert_eq!(state.generate_key(&VECTOR_KEY), Ok(()));
    assert!(!state.short_key());
    assert_eq!(state.key(), &schedule_of(&VECTOR_KEY));
}

#[test]
fn flipping_any_single_key_bit_changes_the_schedule() {
    let reference: Vec<u32> = schedule_of(DEMO_KEY);
    for byte in 0..16usize {
        for bit in 0..8u32 {
            let mut flipped: [u8; 16] = *DEMO_KEY;
            flipped[byte] ^= 1u8 << bit;
            assert_ne!(schedule_of(&flipped), reference);
        }
    }
}

#[test]
fn flipping_a_bit_of_a_short_key_changes_the_schedule() {
    let key: [u8; 5] = [0x01, 0x23, 0x45, 0x67, 0x12];
    let reference: Vec<u32> = schedule_of(&key);
    for byte in 0..5usize {
        for bit in 0..8u32 {
            let mut flipped: [u8; 5] = key;
            flipped[byte] ^= 1u8 << bit;
            assert_ne!(schedule_of(&flipped), reference);
        }
    }
}

#[test]
fn cast_exp_writes_one_word_and_four_lanes() {
    let mut words: [u32; 4] = [0x11111111, 0x22222222, 0x33333333, 0x44444444];
    let mut lanes: [u8; 16] = [0xEEu8; 16];
    Cast128::cast_exp(0x01020304, &mut words, &mut lanes, 8);
    assert_eq!(words, [0x11111111, 0x22222222, 0x01020304, 0x44444444]);
    assert_eq!(
        lanes,
        [
            0xEE, 0xEE, 0xEE, 0xEE, 0xEE, 0xEE, 0xEE, 0xEE, 0x01, 0x02, 0x03, 0x04, 0xEE, 0xEE,
            0xEE, 0xEE
        ]
    );
}

#[test]
fn cast_exp_keeps_words_and_lanes_consistent() {
    let mut words: [u32; 4] = [0u32; 4];
    let mut lanes: [u8; 16] = [0u8; 16];
    let values: [u32; 4] = [0xDEADBEEF, 0x00000000, 0xFFFFFFFF, 0x80000001];
    for quadrant in 0..4usize {
        Cast128::cast_exp(values[quadrant], &mut words, &mut lanes, (4 * quadrant) as u32);
        for q in 0..4usize {
            let spelled: u32 =
                u32::from_be_bytes([lanes[4 * q], lanes[4 * q + 1], lanes[4 * q + 2], lanes[4 * q + 3]]);
            assert_eq!(words[q], spelled);
        }
    }
    assert_eq!(words, values);
    assert_eq!(lanes[0..4], [0xDE, 0xAD, 0xBE, 0xEF]);
    assert_eq!(lanes[12..16], [0x80, 0x00, 0x00, 0x01]);
}

#[test]
fn cast_exp_at_first_and_last_quadrant() {
    let mut words: [u32; 4] = [9u32; 4];
    let mut lanes: [u8; 16] = [9u8; 16];
    Cast128::cast_exp(0xA1B2C3D4, &mut words, &mut lanes, 0);
    Cast128::cast_exp(0x0A0B0C0D, &mut words, &mut lanes, 12);
    assert_eq!(words, [0xA1B2C3D4, 9, 9, 0x0A0B0C0D]);
    assert_eq!(lanes, [0xA1, 0xB2, 0xC3, 0xD4, 9, 9, 9, 9, 9, 9, 9, 9, 0x0A, 0x0B, 0x0C, 0x0D]);
}

#[test]
fn substitution_tables_have_eight_by_256_entries() {
    assert_eq!(SBOXES.len(), SBOX_COUNT);
    assert_eq!(SBOX_COUNT, 8);
    assert_eq!(SBOX_SIZE, 256);
    for table in SBOXES.iter() {
        assert_eq!(table.len(), SBOX_SIZE);
    }
}

#[test]
fn substitution_table_corners() {
    assert_eq!(lookup(0, 0x00), 0x30fb40d4);
    assert_eq!(lookup(0, 0xFF), 0x5c8165bf);
    assert_eq!(lookup(3, 0x00), 0x9db30420);
    assert_eq!(lookup(4, 0x00), 0x7ec90c04);
    assert_eq!(lookup(4, 0x01), 0x2c6e74b9);
    assert_eq!(lookup(5, 0x00), 0xf6fa8f9d);
    assert_eq!(lookup(6, 0x00), 0x85e04019);
    assert_eq!(lookup(7, 0x00), 0xe216300d);
    assert_eq!(lookup(7, 0xFF), 0xea8bf59e);
}

#[test]
fn lookup_reads_the_tables() {
    for table in 0..8usize {
        for byte in 0..=255u8 {
            assert_eq!(lookup(table, byte), SBOXES[table][byte as usize]);
        }
    }
}

#[test]
fn substitution_tables_hold_no_repeats() {
    for table in SBOXES.iter() {
        let mut sorted: Vec<u32> = table.to_vec();
        sorted.sort();
        sorted.dedup();
        assert_eq!(sorted.len(), 256);
    }
}
