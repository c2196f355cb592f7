//! The bit-level steps of the CPUID probe, as pure functions on register
//! words.
//!
//! A flags-register value is a 64-bit word; the ID flag is bit 21.  The
//! probe flips that bit in a saved copy, writes the copy to the register,
//! reads the register back, and interprets the exclusive-or of the saved
//! and read-back words: the probe succeeds exactly when that difference is
//! the ID-flag mask itself, i.e. when bit 21 — and only bit 21 — toggled.

use vstd::prelude::*;

verus! {

/// The ID flag: bit 21 of the flags register.
pub const ID_FLAG_MASK: u64 = 1u64 << 21;

/// Whether the ID flag is set in a flags-register word.
pub open spec fn id_flag(flags: u64) -> bool {
    flags & ID_FLAG_MASK != 0
}

/// The bits of a flags-register word other than the ID flag.
pub open spec fn other_flags(flags: u64) -> u64 {
    flags & !ID_FLAG_MASK
}

/// Inverts the ID flag of a flags-register word and touches no other bit.
pub fn flip_id_flag(flags: u64) -> (r: u64)
    ensures
        r == flags ^ ID_FLAG_MASK,
        id_flag(r) == !id_flag(flags),
        other_flags(r) == other_flags(flags),
{
    proof {
        assert(((flags ^ (1u64 << 21)) & (1u64 << 21) != 0) == !(flags & (1u64 << 21) != 0))
            by (bit_vector);
        assert((flags ^ (1u64 << 21)) & !(1u64 << 21) == flags & !(1u64 << 21)) by (bit_vector);
    }
    flags ^ ID_FLAG_MASK
}

/// The exclusive-or of two register snapshots: a bit is set in the result
/// exactly where the snapshots disagree, so the result is zero exactly
/// when they are identical.
pub fn flag_difference(before: u64, after: u64) -> (diff: u64)
    ensures
        diff == before ^ after,
        (diff == 0) == (before == after),
{
    proof {
        assert((before ^ after == 0) == (before == after)) by (bit_vector);
    }
    before ^ after
}

/// Whether a difference word shows that the ID flag — and only the ID
/// flag — changed.
pub fn id_flag_only_difference(diff: u64) -> (r: bool)
    ensures
        r == (diff == ID_FLAG_MASK),
{
    diff == ID_FLAG_MASK
}

/// Interprets a probe from its two register snapshots: the word saved
/// before the flipped copy was written, and the word read back after.
/// The probe succeeds exactly when the two differ in the ID flag and in
/// nothing else.
pub fn interpret_probe(saved: u64, readback: u64) -> (supported: bool)
    ensures
        supported == (saved ^ readback == ID_FLAG_MASK),
        supported == (id_flag(readback) == !id_flag(saved) && other_flags(readback)
            == other_flags(saved)),
{
    let diff = flag_difference(saved, readback);
    proof {
        assert((saved ^ readback == 1u64 << 21) == ((readback & (1u64 << 21) != 0) == !(saved
            & (1u64 << 21) != 0) && readback & !(1u64 << 21) == saved & !(1u64 << 21)))
            by (bit_vector);
    }
    id_flag_only_difference(diff)
}

} // verus!
