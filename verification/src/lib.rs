//! Key schedule of a 64-bit-block Feistel cipher: a key of one to sixteen
//! bytes is expanded into sixteen masking and sixteen rotation subkeys, and
//! the expansion is proved to match its mathematical definition.
pub mod cast128;
pub mod cast128_sboxes;
pub mod key_schedule;
pub mod schedule_lemmas;
