//! What holds of every key schedule, proved from the definitions.
use crate::cast128::{generates, keyed, Cast128View, KeyError};
use crate::key_schedule::{
    cipher_key_buffer, key_state, lemma_rotation_mask, lemma_write_word, paired, schedule,
    write_word,
};
use vstd::prelude::*;

verus! {

/// A mixing step keeps the two views of a register consistent: committing a
/// word to one quadrant of a paired word and lane register leaves them paired.
pub proof fn lemma_commit_keeps_registers_paired(
    words: Seq<u32>,
    lanes: Seq<u8>,
    quadrant: int,
    w: u32,
)
    requires
        paired(words, lanes),
        0 <= quadrant < 4,
    ensures
        paired(words.update(quadrant, w), write_word(lanes, 4 * quadrant, w)),
{
    lemma_write_word(lanes, 4 * quadrant, w);
}

/// Every key, whatever its length, has a schedule of exactly thirty-two words.
pub proof fn lemma_schedule_length(key: Seq<u8>)
    ensures
        schedule(key).len() == 32,
{
}

/// Only the first sixteen bytes of a longer key affect the result: the key and
/// its sixteen-byte prefix have the same schedule and produce the same state.
pub proof fn lemma_truncation_equivalence(key: Seq<u8>)
    requires
        key.len() > 16,
    ensures
        schedule(key) == schedule(key.subrange(0, 16)),
        keyed(key) == keyed(key.subrange(0, 16)),
{
    assert(key_state(key) =~= key_state(key.subrange(0, 16)));
}

/// The schedule depends on the first sixteen bytes alone: two keys of sixteen
/// bytes or more that agree there have the same schedule.
pub proof fn lemma_schedule_reads_sixteen_bytes(a: Seq<u8>, b: Seq<u8>)
    requires
        a.len() >= 16,
        b.len() >= 16,
        a.subrange(0, 16) == b.subrange(0, 16),
    ensures
        schedule(a) == schedule(b),
{
    assert forall|i: int| 0 <= i < 16 implies a[i] == b[i] by {
        assert(a.subrange(0, 16)[i] == a[i]);
        assert(b.subrange(0, 16)[i] == b[i]);
    }
    assert(key_state(a) =~= key_state(b));
}

/// A key shorter than sixteen bytes has the schedule of the key padded with
/// zero bytes to sixteen.
pub proof fn lemma_zero_padding(key: Seq<u8>)
    requires
        key.len() < 16,
    ensures
        schedule(key) == schedule(key_state(key)),
{
    assert(key_state(key_state(key)) =~= key_state(key));
}

/// Every rotation subkey, which is every odd-indexed word of a schedule, lies
/// in the range 0 to 31.
pub proof fn lemma_rotation_subkeys_in_range(key: Seq<u8>)
    ensures
        forall|j: int| 0 <= j < 32 && j % 2 == 1 ==> 0 <= #[trigger] schedule(key)[j] <= 31,
{
    let buffer = cipher_key_buffer(key_state(key));
    assert forall|j: int| 0 <= j < 32 && j % 2 == 1 implies 0 <= #[trigger] schedule(key)[j]
        <= 31 by {
        lemma_rotation_mask(buffer[16 + j / 2]);
    }
}

/// Key generation is deterministic: two runs on the same key give the same
/// result, and for a non-empty key the same state, whatever the two states
/// were before.
pub proof fn lemma_generation_deterministic(
    before1: Cast128View,
    before2: Cast128View,
    key: Seq<u8>,
    result1: Result<(), KeyError>,
    result2: Result<(), KeyError>,
    after1: Cast128View,
    after2: Cast128View,
)
    requires
        generates(before1, key, result1, after1),
        generates(before2, key, result2, after2),
    ensures
        result1 == result2,
        key.len() > 0 ==> after1 == after2,
        key.len() == 0 ==> after1 == before1 && after2 == before2,
{
}

/// An empty key is always refused, and the state keeps whatever it held.
pub proof fn lemma_empty_key_refused(
    before: Cast128View,
    result: Result<(), KeyError>,
    after: Cast128View,
)
    requires
        generates(before, Seq::<u8>::empty(), result, after),
    ensures
        result == Err::<(), KeyError>(KeyError::KeyMaterialRequired),
        after == before,
{
}

/// The short-key flag of a generated state is set exactly when the key as
/// given, before any truncation, has at most ten bytes.
pub proof fn lemma_short_key_flag(
    before: Cast128View,
    key: Seq<u8>,
    result: Result<(), KeyError>,
    after: Cast128View,
)
    requires
        key.len() > 0,
        generates(before, key, result, after),
    ensures
        after.short_key <==> key.len() <= 10,
{
}

} // verus!
