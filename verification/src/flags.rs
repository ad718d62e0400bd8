//! Descriptor flag arithmetic.
//!
//! Putting the master into non-blocking mode, and marking it close-on-exec at
//! allocation, are read-modify-write updates of a kernel flag word: read the
//! current word, set one more bit, write the word back. The update function
//! and its algebra live here; which bit is the platform's is read from the
//! trusted boundary.

use vstd::prelude::*;

verus! {

/// A flag word with one more flag raised.
pub open spec fn with_flag(flags: u32, bit: u32) -> u32 {
    flags | bit
}

/// Raise one flag in a flag word.
pub fn add_flag(flags: u32, bit: u32) -> (r: u32)
    ensures
        r == with_flag(flags, bit),
{
    flags | bit
}

/// Law: raising a flag is idempotent — updating a word that already carries
/// the flag leaves it unchanged, so repeating the read-modify-write update
/// (as a second `set_nonblocking` call does) writes back the same word.
pub proof fn lemma_with_flag_idempotent(flags: u32, bit: u32)
    ensures
        with_flag(with_flag(flags, bit), bit) == with_flag(flags, bit),
{
    assert((flags | bit) | bit == flags | bit) by (bit_vector);
}

/// Law: the update only adds — the raised flag is set afterwards, and every
/// flag that was set before stays set.
pub proof fn lemma_with_flag_adds(flags: u32, bit: u32)
    ensures
        with_flag(flags, bit) & bit == bit,
        with_flag(flags, bit) & flags == flags,
{
    assert((flags | bit) & bit == bit) by (bit_vector);
    assert((flags | bit) & flags == flags) by (bit_vector);
}

} // verus!
