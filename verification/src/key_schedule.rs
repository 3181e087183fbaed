//! The key schedule as mathematics: pure functions from key bytes to subkey
//! words. The 128-bit working state is modelled as a sequence of sixteen byte
//! lanes; its four 32-bit words are read off the lanes big-endian.
use crate::cast128_sboxes::sbox;
use vstd::prelude::*;

verus! {

/// Bytes in a cipher block.
pub const CAST5_BLOCK_SIZE: usize = 8;

/// Bytes of key material that take part in the schedule.
pub const CAST5_KEY_SIZE: usize = 16;

/// Words in the finished schedule.
pub const CAST5_EXT_KEY_SIZE: usize = 32;

/// Longest key, in bytes, that is flagged as short.
pub const CAST5_SHORT_KEY_SIZE: usize = 10;

/// The word made of four bytes, most significant first.
pub open spec fn pack(b0: u8, b1: u8, b2: u8, b3: u8) -> u32 {
    ((b0 as u32) << 24) | ((b1 as u32) << 16) | ((b2 as u32) << 8) | (b3 as u32)
}

/// The four bytes of a word, most significant first.
pub open spec fn word_bytes(w: u32) -> Seq<u8> {
    seq![
        ((w >> 24) & 0xFF) as u8,
        ((w >> 16) & 0xFF) as u8,
        ((w >> 8) & 0xFF) as u8,
        (w & 0xFF) as u8,
    ]
}

/// The word held in lanes `n .. n + 4`.
pub open spec fn word_at(lanes: Seq<u8>, n: int) -> u32
    recommends
        0 <= n,
        n + 4 <= lanes.len(),
{
    pack(lanes[n], lanes[n + 1], lanes[n + 2], lanes[n + 3])
}

/// The lanes after a word has been committed to lanes `n .. n + 4`.
pub open spec fn write_word(lanes: Seq<u8>, n: int, w: u32) -> Seq<u8>
    recommends
        0 <= n,
        n + 4 <= lanes.len(),
{
    let b = word_bytes(w);
    lanes.update(n, b[0]).update(n + 1, b[1]).update(n + 2, b[2]).update(n + 3, b[3])
}

/// A word register and a lane register hold the same 128 bits.
pub open spec fn paired(words: Seq<u32>, lanes: Seq<u8>) -> bool {
    &&& words.len() == 4
    &&& lanes.len() == 16
    &&& forall|q: int| 0 <= q < 4 ==> #[trigger] words[q] == word_at(lanes, 4 * q)
}

/// The word of one mixing stage: a word of the source register folded with
/// five table entries. The first four come from the key-schedule tables in
/// order; the fifth comes from table `t`.
pub open spec fn fold(w: u32, a: u8, b: u8, c: u8, d: u8, t: int, e: u8) -> u32 {
    w ^ sbox(4, a) ^ sbox(5, b) ^ sbox(6, c) ^ sbox(7, d) ^ sbox(t, e)
}

/// One word of the cipher key buffer: five table entries folded together.
pub open spec fn key_word(a: u8, b: u8, c: u8, d: u8, t: int, e: u8) -> u32 {
    sbox(4, a) ^ sbox(5, b) ^ sbox(6, c) ^ sbox(7, d) ^ sbox(t, e)
}

/// The Z state derived from the X state `x` by four mixing stages.
pub open spec fn derive_z(x: Seq<u8>) -> Seq<u8>
    recommends
        x.len() == 16,
{
    let q0 = word_bytes(fold(word_at(x, 0), x[13], x[15], x[12], x[14], 6, x[8]));
    let q1 = word_bytes(fold(word_at(x, 8), q0[0], q0[2], q0[1], q0[3], 7, x[10]));
    let q2 = word_bytes(fold(word_at(x, 12), q1[3], q1[2], q1[1], q1[0], 4, x[9]));
    let q3 = word_bytes(fold(word_at(x, 4), q2[2], q2[1], q2[3], q2[0], 5, x[11]));
    q0 + q1 + q2 + q3
}

/// The X state derived from the Z state `z` by four mixing stages.
pub open spec fn derive_x(z: Seq<u8>) -> Seq<u8>
    recommends
        z.len() == 16,
{
    let q0 = word_bytes(fold(word_at(z, 8), z[5], z[7], z[4], z[6], 6, z[0]));
    let q1 = word_bytes(fold(word_at(z, 0), q0[0], q0[2], q0[1], q0[3], 7, z[2]));
    let q2 = word_bytes(fold(word_at(z, 4), q1[3], q1[2], q1[1], q1[0], 4, z[1]));
    let q3 = word_bytes(fold(word_at(z, 12), q2[2], q2[1], q2[3], q2[0], 5, z[3]));
    q0 + q1 + q2 + q3
}

/// First group of four buffer words of a round, taken from a Z state.
pub open spec fn subkeys_a(z: Seq<u8>) -> Seq<u32>
    recommends
        z.len() == 16,
{
    seq![
        key_word(z[8], z[9], z[7], z[6], 4, z[2]),
        key_word(z[10], z[11], z[5], z[4], 5, z[6]),
        key_word(z[12], z[13], z[3], z[2], 6, z[9]),
        key_word(z[14], z[15], z[1], z[0], 7, z[12]),
    ]
}

/// Second group of four buffer words of a round, taken from an X state.
pub open spec fn subkeys_b(x: Seq<u8>) -> Seq<u32>
    recommends
        x.len() == 16,
{
    seq![
        key_word(x[3], x[2], x[12], x[13], 4, x[8]),
        key_word(x[1], x[0], x[14], x[15], 5, x[13]),
        key_word(x[7], x[6], x[8], x[9], 6, x[3]),
        key_word(x[5], x[4], x[10], x[11], 7, x[7]),
    ]
}

/// Third group of four buffer words of a round, taken from a Z state.
pub open spec fn subkeys_c(z: Seq<u8>) -> Seq<u32>
    recommends
        z.len() == 16,
{
    seq![
        key_word(z[3], z[2], z[12], z[13], 4, z[9]),
        key_word(z[1], z[0], z[14], z[15], 5, z[12]),
        key_word(z[7], z[6], z[8], z[9], 6, z[2]),
        key_word(z[5], z[4], z[10], z[11], 7, z[6]),
    ]
}

/// Fourth group of four buffer words of a round, taken from an X state.
pub open spec fn subkeys_d(x: Seq<u8>) -> Seq<u32>
    recommends
        x.len() == 16,
{
    seq![
        key_word(x[8], x[9], x[7], x[6], 4, x[3]),
        key_word(x[10], x[11], x[5], x[4], 5, x[7]),
        key_word(x[12], x[13], x[3], x[2], 6, x[8]),
        key_word(x[14], x[15], x[1], x[0], 7, x[13]),
    ]
}

/// The sixteen buffer words that one round yields from the X state `x`.
pub open spec fn round_keys(x: Seq<u8>) -> Seq<u32>
    recommends
        x.len() == 16,
{
    let z1 = derive_z(x);
    let x1 = derive_x(z1);
    let z2 = derive_z(x1);
    let x2 = derive_x(z2);
    subkeys_a(z1) + subkeys_b(x1) + subkeys_c(z2) + subkeys_d(x2)
}

/// The X state that one round leaves behind.
pub open spec fn round_state(x: Seq<u8>) -> Seq<u8>
    recommends
        x.len() == 16,
{
    derive_x(derive_z(derive_x(derive_z(x))))
}

/// The 32-word cipher key buffer: two rounds, the second starting from the
/// state the first left behind.
pub open spec fn cipher_key_buffer(x: Seq<u8>) -> Seq<u32>
    recommends
        x.len() == 16,
{
    round_keys(x) + round_keys(round_state(x))
}

/// A rotation subkey: the buffer word plus 16, reduced modulo 32.
pub open spec fn rotation(k: u32) -> u32 {
    ((k as int + 16) % 32) as u32
}

/// The output layout: masking subkeys at even indices, rotation subkeys at
/// odd indices.
pub open spec fn deinterleave(buffer: Seq<u32>) -> Seq<u32>
    recommends
        buffer.len() == 32,
{
    Seq::new(
        32,
        |j: int|
            if j % 2 == 0 {
                buffer[j / 2]
            } else {
                rotation(buffer[16 + j / 2])
            },
    )
}

/// The initial X state: the first sixteen key bytes, zero-padded.
pub open spec fn key_state(key: Seq<u8>) -> Seq<u8> {
    Seq::new(
        16,
        |i: int|
            if i < key.len() {
                key[i]
            } else {
                0u8
            },
    )
}

/// The schedule of a key: thirty-two subkey words.
pub open spec fn schedule(key: Seq<u8>) -> Seq<u32> {
    deinterleave(cipher_key_buffer(key_state(key)))
}

/// Whether a key counts as short, judged by its full length.
pub open spec fn is_short_key(key: Seq<u8>) -> bool {
    key.len() <= 10
}

/// Splitting a word into bytes and packing them again gives the word back.
pub proof fn lemma_pack_word_bytes(w: u32)
    ensures
        pack(word_bytes(w)[0], word_bytes(w)[1], word_bytes(w)[2], word_bytes(w)[3]) == w,
{
    assert(((((w >> 24) & 0xFF) as u8 as u32) << 24) | ((((w >> 16) & 0xFF) as u8 as u32) << 16)
        | ((((w >> 8) & 0xFF) as u8 as u32) << 8) | ((w & 0xFF) as u8 as u32) == w)
        by (bit_vector);
}

/// Committing a word to a quadrant makes that quadrant read back as the word
/// and leaves the words of the other quadrants as they were.
pub proof fn lemma_write_word(lanes: Seq<u8>, n: int, w: u32)
    requires
        0 <= n,
        n + 4 <= lanes.len(),
    ensures
        write_word(lanes, n, w).len() == lanes.len(),
        word_at(write_word(lanes, n, w), n) == w,
        forall|m: int|
            0 <= m && m + 4 <= lanes.len() && (m + 4 <= n || n + 4 <= m) ==> #[trigger] word_at(
                write_word(lanes, n, w),
                m,
            ) == word_at(lanes, m),
{
    lemma_pack_word_bytes(w);
}

/// The rotation subkey computed with wrapping addition and a five-bit mask.
pub proof fn lemma_rotation_mask(k: u32)
    ensures
        rotation(k) == k.wrapping_add(16) & 0x1F,
        rotation(k) <= 31,
{
    let s = k.wrapping_add(16);
    assert(s == (k as int + 16) % 0x1_0000_0000);
    assert(s & 0x1F == s % 32) by (bit_vector);
    assert((k as int + 16) % 32 == ((k as int + 16) % 0x1_0000_0000) % 32);
}

} // verus!
