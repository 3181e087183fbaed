//! The key schedule generator and the state that holds its result.
use crate::cast128_sboxes::lookup;
use crate::key_schedule::{
    cipher_key_buffer, deinterleave, derive_x, derive_z, fold, is_short_key, key_state, key_word,
    lemma_rotation_mask, lemma_write_word, pack, paired, round_keys, round_state, schedule,
    subkeys_a, subkeys_b, subkeys_c, subkeys_d, word_at, write_word, CAST5_BLOCK_SIZE,
    CAST5_EXT_KEY_SIZE, CAST5_KEY_SIZE, CAST5_SHORT_KEY_SIZE,
};
use vstd::prelude::*;

verus! {

/// Why a key was refused.
#[derive(Debug, Clone, Copy, PartialEq, Eq, Structural)]
pub enum KeyError {
    /// No key material was given: the key is empty.
    KeyMaterialRequired,
}

impl KeyError {
    /// The text that describes the error.
    pub fn message(&self) -> (text: &'static str)
        ensures
            text@ == "key cannot be empty"@,
    {
        "key cannot be empty"
    }
}

/// Cipher state: the key schedule, the short-key flag, and the stream
/// position and chaining value of each direction.
#[derive(Debug)]
pub struct Cast128 {
    key: Vec<u32>,
    short_key: bool,
    encrypt_num: i32,
    decrypt_num: i32,
    encrypt_iv: Vec<u8>,
    decrypt_iv: Vec<u8>,
}

/// What a `Cast128` holds, as plain mathematical values.
pub struct Cast128View {
    pub key: Seq<u32>,
    pub short_key: bool,
    pub encrypt_num: int,
    pub decrypt_num: int,
    pub encrypt_iv: Seq<u8>,
    pub decrypt_iv: Seq<u8>,
}

impl View for Cast128 {
    type V = Cast128View;

    closed spec fn view(&self) -> Cast128View {
        Cast128View {
            key: self.key@,
            short_key: self.short_key,
            encrypt_num: self.encrypt_num as int,
            decrypt_num: self.decrypt_num as int,
            encrypt_iv: self.encrypt_iv@,
            decrypt_iv: self.decrypt_iv@,
        }
    }
}

/// The state before any key has been set: nothing held, all counters zero.
pub open spec fn unkeyed() -> Cast128View {
    Cast128View {
        key: Seq::empty(),
        short_key: false,
        encrypt_num: 0,
        decrypt_num: 0,
        encrypt_iv: Seq::empty(),
        decrypt_iv: Seq::empty(),
    }
}

/// The state that a non-empty key produces: its schedule and short-key flag,
/// with both stream positions at zero and both chaining values zeroed.
pub open spec fn keyed(key: Seq<u8>) -> Cast128View {
    Cast128View {
        key: schedule(key),
        short_key: is_short_key(key),
        encrypt_num: 0,
        decrypt_num: 0,
        encrypt_iv: Seq::new(8, |i: int| 0u8),
        decrypt_iv: Seq::new(8, |i: int| 0u8),
    }
}

/// How key generation relates the state before, the key, the result and the
/// state after: an empty key is refused and changes nothing; any other key
/// succeeds and the state after depends on the key alone.
pub open spec fn generates(
    before: Cast128View,
    key: Seq<u8>,
    result: Result<(), KeyError>,
    after: Cast128View,
) -> bool {
    if key.len() == 0 {
        result == Err::<(), KeyError>(KeyError::KeyMaterialRequired) && after == before
    } else {
        result == Ok::<(), KeyError>(()) && after == keyed(key)
    }
}

impl Default for Cast128 {
    fn default() -> (state: Self)
        ensures
            state@ == unkeyed(),
    {
        Cast128 {
            key: Vec::new(),
            short_key: false,
            encrypt_num: 0,
            decrypt_num: 0,
            encrypt_iv: Vec::new(),
            decrypt_iv: Vec::new(),
        }
    }
}

impl Cast128 {
    /// Derives the key schedule from `key` and resets the stream state.
    ///
    /// An empty key is refused and leaves the state as it was. Any other key
    /// succeeds: only its first sixteen bytes enter the schedule, shorter keys
    /// are zero-padded, and the short-key flag records whether the key as
    /// given had at most ten bytes.
    pub fn generate_key(&mut self, key: &[u8]) -> (result: Result<(), KeyError>)
        ensures
            generates(old(self)@, key@, result, final(self)@),
            result is Err <==> key@.len() == 0,
            result is Ok ==> final(self)@.key.len() == 32,
            result is Ok ==> forall|j: int|
                0 <= j < 32 && j % 2 == 1 ==> #[trigger] final(self)@.key[j] <= 31,
            result is Ok ==> (final(self)@.short_key <==> key@.len() <= 10),
    {
        let length: usize = key.len();
        if length == 0 {
            return Err(KeyError::KeyMaterialRequired);
        }
        let mut small_x: [u8; 16] = Self::load_key(key);
        let mut small_z: [u8; 16] = [0u8; 16];
        let mut cap_x: [u32; 4] = [
            Self::pack_word(small_x[0], small_x[1], small_x[2], small_x[3]),
            Self::pack_word(small_x[4], small_x[5], small_x[6], small_x[7]),
            Self::pack_word(small_x[8], small_x[9], small_x[10], small_x[11]),
            Self::pack_word(small_x[12], small_x[13], small_x[14], small_x[15]),
        ];
        let mut cap_z: [u32; 4] = [0u32; 4];
        let mut cipher_key: [u32; 32] = [0u32; 32];

        Self::round(&mut cap_x, &mut small_x, &mut cap_z, &mut small_z, &mut cipher_key, 0);
        Self::round(&mut cap_x, &mut small_x, &mut cap_z, &mut small_z, &mut cipher_key, 16);
        assert(cipher_key@ =~= cipher_key_buffer(key_state(key@)));

        self.key = Self::split_subkeys(&cipher_key);
        self.short_key = length <= CAST5_SHORT_KEY_SIZE;
        self.encrypt_iv = Self::zero_block();
        self.decrypt_iv = Self::zero_block();
        self.encrypt_num = 0;
        self.decrypt_num = 0;
        Ok(())
    }

    /// The schedule: thirty-two words once a key has been set, none before.
    pub fn key(&self) -> (words: &Vec<u32>)
        ensures
            words@ == self@.key,
    {
        &self.key
    }

    /// Whether the key that was set had at most ten bytes.
    pub fn short_key(&self) -> (flag: bool)
        ensures
            flag == self@.short_key,
    {
        self.short_key
    }

    /// Position in the encryption stream.
    pub fn encrypt_num(&self) -> (num: i32)
        ensures
            num == self@.encrypt_num,
    {
        self.encrypt_num
    }

    /// Position in the decryption stream.
    pub fn decrypt_num(&self) -> (num: i32)
        ensures
            num == self@.decrypt_num,
    {
        self.decrypt_num
    }

    /// Chaining value of the encryption stream.
    pub fn encrypt_iv(&self) -> (iv: &Vec<u8>)
        ensures
            iv@ == self@.encrypt_iv,
    {
        &self.encrypt_iv
    }

    /// Chaining value of the decryption stream.
    pub fn decrypt_iv(&self) -> (iv: &Vec<u8>)
        ensures
            iv@ == self@.decrypt_iv,
    {
        &self.decrypt_iv
    }

    /// A zeroed chaining value of one block.
    fn zero_block() -> (iv: Vec<u8>)
        ensures
            iv@ == Seq::new(8, |i: int| 0u8),
    {
        let mut iv: Vec<u8> = Vec::new();
        let mut i: usize = 0;
        while i < CAST5_BLOCK_SIZE
            invariant
                i <= CAST5_BLOCK_SIZE,
                iv@.len() == i,
                forall|j: int| 0 <= j < i ==> iv@[j] == 0u8,
            decreases CAST5_BLOCK_SIZE - i,
        {
            iv.push(0u8);
            i += 1;
        }
        assert(iv@ =~= Seq::new(8, |i: int| 0u8));
        iv
    }

    /// Copies the first sixteen key bytes into the X lanes, zero-padded.
    fn load_key(key: &[u8]) -> (small_x: [u8; 16])
        ensures
            small_x@ == key_state(key@),
    {
        let mut small_x: [u8; 16] = [0u8; 16];
        let mut length: usize = key.len();
        if length > CAST5_KEY_SIZE {
            length = CAST5_KEY_SIZE;
        }
        let mut i: usize = 0;
        while i < length
            invariant
                i <= length <= 16,
                length <= key@.len(),
                forall|j: int| 0 <= j < i ==> small_x@[j] == key@[j],
                forall|j: int| i <= j < 16 ==> small_x@[j] == 0u8,
            decreases length - i,
        {
            small_x[i] = key[i];
            i += 1;
        }
        assert(small_x@ =~= key_state(key@));
        small_x
    }

    /// The mixing primitive: stores `l` in word `n / 4` of the word register
    /// and its four bytes, most significant first, in lanes `n .. n + 4` of
    /// the lane register, so that the stored word is the word those lanes spell.
    pub fn cast_exp(l: u32, cap_a: &mut [u32], a: &mut [u8], n: u32)
        requires
            n / 4 < old(cap_a).len(),
            n + 3 < old(a).len(),
        ensures
            final(cap_a)@ == old(cap_a)@.update(n as int / 4, l),
            final(a)@ == write_word(old(a)@, n as int, l),
            final(cap_a)@[n as int / 4] == word_at(final(a)@, n as int),
    {
        let n: usize = n as usize;
        proof {
            lemma_write_word(a@, n as int, l);
            assert(l & 0xFF <= 0xFF) by (bit_vector);
            assert((l >> 8) & 0xFF <= 0xFF) by (bit_vector);
            assert((l >> 16) & 0xFF <= 0xFF) by (bit_vector);
            assert((l >> 24) & 0xFF <= 0xFF) by (bit_vector);
        }
        cap_a[n / 4] = l;
        a[n + 3] = (l & 0xFF) as u8;
        a[n + 2] = ((l >> 8) & 0xFF) as u8;
        a[n + 1] = ((l >> 16) & 0xFF) as u8;
        a[n] = ((l >> 24) & 0xFF) as u8;
    }

    /// Packs four bytes into a word, most significant first.
    fn pack_word(b0: u8, b1: u8, b2: u8, b3: u8) -> (w: u32)
        ensures
            w == pack(b0, b1, b2, b3),
    {
        ((b0 as u32) << 24) | ((b1 as u32) << 16) | ((b2 as u32) << 8) | (b3 as u32)
    }

    /// Computes the word of one mixing stage.
    fn fold_word(w: u32, a: u8, b: u8, c: u8, d: u8, t: usize, e: u8) -> (l: u32)
        requires
            t < 8,
        ensures
            l == fold(w, a, b, c, d, t as int, e),
    {
        w ^ lookup(4, a) ^ lookup(5, b) ^ lookup(6, c) ^ lookup(7, d) ^ lookup(t, e)
    }

    /// Computes one word of the cipher key buffer.
    fn buffer_word(a: u8, b: u8, c: u8, d: u8, t: usize, e: u8) -> (k: u32)
        requires
            t < 8,
        ensures
            k == key_word(a, b, c, d, t as int, e),
    {
        lookup(4, a) ^ lookup(5, b) ^ lookup(6, c) ^ lookup(7, d) ^ lookup(t, e)
    }

    /// Four mixing stages that fill the Z registers from the X registers.
    fn mix_z(cap_x: &[u32; 4], small_x: &[u8; 16], cap_z: &mut [u32; 4], small_z: &mut [u8; 16])
        requires
            paired(cap_x@, small_x@),
        ensures
            final(small_z)@ == derive_z(small_x@),
            paired(final(cap_z)@, final(small_z)@),
    {
        let l = Self::fold_word(
            cap_x[0],
            small_x[13],
            small_x[15],
            small_x[12],
            small_x[14],
            6,
            small_x[8],
        );
        Self::cast_exp(l, cap_z, small_z, 0);
        let l = Self::fold_word(
            cap_x[2],
            small_z[0],
            small_z[2],
            small_z[1],
            small_z[3],
            7,
            small_x[10],
        );
        Self::cast_exp(l, cap_z, small_z, 4);
        let l = Self::fold_word(
            cap_x[3],
            small_z[7],
            small_z[6],
            small_z[5],
            small_z[4],
            4,
            small_x[9],
        );
        Self::cast_exp(l, cap_z, small_z, 8);
        let l = Self::fold_word(
            cap_x[1],
            small_z[10],
            small_z[9],
            small_z[11],
            small_z[8],
            5,
            small_x[11],
        );
        Self::cast_exp(l, cap_z, small_z, 12);
    }

    /// Four mixing stages that fill the X registers from the Z registers.
    fn mix_x(cap_z: &[u32; 4], small_z: &[u8; 16], cap_x: &mut [u32; 4], small_x: &mut [u8; 16])
        requires
            paired(cap_z@, small_z@),
        ensures
            final(small_x)@ == derive_x(small_z@),
            paired(final(cap_x)@, final(small_x)@),
    {
        let l = Self::fold_word(
            cap_z[2],
            small_z[5],
            small_z[7],
            small_z[4],
            small_z[6],
            6,
            small_z[0],
        );
        Self::cast_exp(l, cap_x, small_x, 0);
        let l = Self::fold_word(
            cap_z[0],
            small_x[0],
            small_x[2],
            small_x[1],
            small_x[3],
            7,
            small_z[2],
        );
        Self::cast_exp(l, cap_x, small_x, 4);
        let l = Self::fold_word(
            cap_z[1],
            small_x[7],
            small_x[6],
            small_x[5],
            small_x[4],
            4,
            small_z[1],
        );
        Self::cast_exp(l, cap_x, small_x, 8);
        let l = Self::fold_word(
            cap_z[3],
            small_x[10],
            small_x[9],
            small_x[11],
            small_x[8],
            5,
            small_z[3],
        );
        Self::cast_exp(l, cap_x, small_x, 12);
    }

    /// The first group of four buffer words, from the Z lanes.
    fn group_a(z: &[u8; 16]) -> (k: [u32; 4])
        ensures
            k@ == subkeys_a(z@),
    {
        [
            Self::buffer_word(z[8], z[9], z[7], z[6], 4, z[2]),
            Self::buffer_word(z[10], z[11], z[5], z[4], 5, z[6]),
            Self::buffer_word(z[12], z[13], z[3], z[2], 6, z[9]),
            Self::buffer_word(z[14], z[15], z[1], z[0], 7, z[12]),
        ]
    }

    /// The second group of four buffer words, from the X lanes.
    fn group_b(x: &[u8; 16]) -> (k: [u32; 4])
        ensures
            k@ == subkeys_b(x@),
    {
        [
            Self::buffer_word(x[3], x[2], x[12], x[13], 4, x[8]),
            Self::buffer_word(x[1], x[0], x[14], x[15], 5, x[13]),
            Self::buffer_word(x[7], x[6], x[8], x[9], 6, x[3]),
            Self::buffer_word(x[5], x[4], x[10], x[11], 7, x[7]),
        ]
    }

    /// The third group of four buffer words, from the Z lanes.
    fn group_c(z: &[u8; 16]) -> (k: [u32; 4])
        ensures
            k@ == subkeys_c(z@),
    {
        [
            Self::buffer_word(z[3], z[2], z[12], z[13], 4, z[9]),
            Self::buffer_word(z[1], z[0], z[14], z[15], 5, z[12]),
            Self::buffer_word(z[7], z[6], z[8], z[9], 6, z[2]),
            Self::buffer_word(z[5], z[4], z[10], z[11], 7, z[6]),
        ]
    }

    /// The fourth group of four buffer words, from the X lanes.
    fn group_d(x: &[u8; 16]) -> (k: [u32; 4])
        ensures
            k@ == subkeys_d(x@),
    {
        [
            Self::buffer_word(x[8], x[9], x[7], x[6], 4, x[3]),
            Self::buffer_word(x[10], x[11], x[5], x[4], 5, x[7]),
            Self::buffer_word(x[12], x[13], x[3], x[2], 6, x[8]),
            Self::buffer_word(x[14], x[15], x[1], x[0], 7, x[13]),
        ]
    }

    /// Stores a group of four words at `at .. at + 4` of the cipher key buffer.
    fn store_group(cipher_key: &mut [u32; 32], at: usize, k: &[u32; 4])
        requires
            at + 4 <= 32,
        ensures
            forall|j: int|
                0 <= j < 32 ==> #[trigger] final(cipher_key)@[j] == (if at <= j < at + 4 {
                    k@[j - at]
                } else {
                    old(cipher_key)@[j]
                }),
    {
        cipher_key[at] = k[0];
        cipher_key[at + 1] = k[1];
        cipher_key[at + 2] = k[2];
        cipher_key[at + 3] = k[3];
    }

    /// One round: sixteen mixing stages that alternate between the Z and the X
    /// registers, and after every fourth stage a group of four buffer words
    /// stored from `i` on.
    fn round(
        cap_x: &mut [u32; 4],
        small_x: &mut [u8; 16],
        cap_z: &mut [u32; 4],
        small_z: &mut [u8; 16],
        cipher_key: &mut [u32; 32],
        i: usize,
    )
        requires
            paired(old(cap_x)@, old(small_x)@),
            i + 16 <= 32,
        ensures
            final(small_x)@ == round_state(old(small_x)@),
            paired(final(cap_x)@, final(small_x)@),
            final(cipher_key)@.subrange(i as int, i + 16) == round_keys(old(small_x)@),
            forall|j: int|
                0 <= j < 32 && !(i <= j < i + 16) ==> #[trigger] final(cipher_key)@[j] == old(
                    cipher_key,
                )@[j],
    {
        Self::mix_z(cap_x, small_x, cap_z, small_z);
        let k = Self::group_a(small_z);
        Self::store_group(cipher_key, i, &k);
        Self::mix_x(cap_z, small_z, cap_x, small_x);
        let k = Self::group_b(small_x);
        Self::store_group(cipher_key, i + 4, &k);
        Self::mix_z(cap_x, small_x, cap_z, small_z);
        let k = Self::group_c(small_z);
        Self::store_group(cipher_key, i + 8, &k);
        Self::mix_x(cap_z, small_z, cap_x, small_x);
        let k = Self::group_d(small_x);
        Self::store_group(cipher_key, i + 12, &k);
    }

    /// Lays the cipher key buffer out as the schedule: masking subkeys at even
    /// indices, rotation subkeys at odd indices.
    fn split_subkeys(cipher_key: &[u32; 32]) -> (out: Vec<u32>)
        ensures
            out@ == deinterleave(cipher_key@),
    {
        let mut out: Vec<u32> = Vec::with_capacity(CAST5_EXT_KEY_SIZE);
        let mut i: usize = 0;
        while i < CAST5_KEY_SIZE
            invariant
                i <= CAST5_KEY_SIZE,
                out@.len() == 2 * i,
                forall|j: int| 0 <= j < 2 * i ==> out@[j] == deinterleave(cipher_key@)[j],
            decreases CAST5_KEY_SIZE - i,
        {
            proof {
                lemma_rotation_mask(cipher_key@[i + CAST5_KEY_SIZE]);
            }
            out.push(cipher_key[i]);
            out.push(cipher_key[i + CAST5_KEY_SIZE].wrapping_add(16) & 0x1F);
            i += 1;
        }
        out
    }
}

} // verus!
