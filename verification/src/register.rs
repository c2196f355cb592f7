//! A model of the processor flags register and the probe run against it.
//!
//! The register is a 64-bit word together with one capability: whether the
//! ID flag honours software writes.  On hardware that supports CPUID a
//! write lands in bit 21 like in any other bit; on hardware that does not,
//! the processor forces bit 21 back to its previous value and the write
//! reaches only the other bits.  [`FlagsRegister::write`] implements
//! exactly that behaviour, so the probe sequence — save, flip the ID flag,
//! write, read back, restore, compare — can be run and verified against
//! the model.  The lemmas at the end state the probe's guarantees: it
//! reports ID-flag writability exactly, it restores the register
//! bit-for-bit, the observed difference never strays outside the ID flag,
//! and repeated probes agree.

use vstd::prelude::*;

use crate::flags::flag_difference;
use crate::flags::flip_id_flag;
use crate::flags::id_flag_only_difference;
use crate::flags::other_flags;
use crate::flags::ID_FLAG_MASK;

verus! {

/// A processor flags register: its current word, and whether the
/// processor lets software toggle the ID flag — which on the x86 family
/// is precisely the question of CPUID support.
#[derive(Clone, Copy, PartialEq, Eq, Structural, Debug)]
pub struct FlagsRegister {
    /// The word the register currently holds.
    pub value: u64,
    /// Whether a write may change bit 21; hard-wired processors force the
    /// bit back to its previous value on every write.
    pub id_flag_writable: bool,
}

/// The word the register holds after software writes `v`: all bits of `v`
/// land except, on a hard-wired register, bit 21, which keeps its
/// previous value.
pub open spec fn written_value(reg: FlagsRegister, v: u64) -> u64 {
    if reg.id_flag_writable {
        v
    } else {
        (v & !ID_FLAG_MASK) | (reg.value & ID_FLAG_MASK)
    }
}

/// The register after software writes `v`.
pub open spec fn spec_write(reg: FlagsRegister, v: u64) -> FlagsRegister {
    FlagsRegister { value: written_value(reg, v), id_flag_writable: reg.id_flag_writable }
}

/// The difference the probe observes on `reg`: the exclusive-or of the
/// saved word with the word read back after writing the flipped copy.
pub open spec fn spec_difference(reg: FlagsRegister) -> u64 {
    reg.value ^ written_value(reg, reg.value ^ ID_FLAG_MASK)
}

/// What the probe answers on `reg`: whether exactly the ID flag toggled.
pub open spec fn spec_probe_result(reg: FlagsRegister) -> bool {
    spec_difference(reg) == ID_FLAG_MASK
}

/// The register the probe leaves behind on `reg`: the flipped copy is
/// written, then the saved word is written back.
pub open spec fn spec_probe_final(reg: FlagsRegister) -> FlagsRegister {
    spec_write(spec_write(reg, reg.value ^ ID_FLAG_MASK), reg.value)
}

impl FlagsRegister {
    /// Reads the register's current word.
    pub fn read(&self) -> (r: u64)
        ensures
            r == self.value,
    {
        self.value
    }

    /// Writes a word to the register.  The write reaches every bit except,
    /// on a hard-wired register, the ID flag, which keeps its previous
    /// value.
    pub fn write(&mut self, v: u64)
        ensures
            *final(self) == spec_write(*old(self), v),
            final(self).id_flag_writable == old(self).id_flag_writable,
            old(self).id_flag_writable ==> final(self).value == v,
            other_flags(final(self).value) == other_flags(v),
    {
        proof {
            let w = self.value;
            assert(((v & !(1u64 << 21)) | (w & (1u64 << 21))) & !(1u64 << 21) == v & !(1u64
                << 21)) by (bit_vector);
        }
        if self.id_flag_writable {
            self.value = v;
        } else {
            self.value = (v & !ID_FLAG_MASK) | (self.value & ID_FLAG_MASK);
        }
    }

    /// Probes whether the register's ID flag can be toggled by software —
    /// on the x86 family, whether CPUID is available.  The register is
    /// saved, a copy with the ID flag inverted is written, the register is
    /// read back, the saved word is written back unconditionally, and the
    /// probe answers whether exactly the ID flag toggled.  The register is
    /// left bit-for-bit as it was found.
    pub fn is_cpuid_supported(&mut self) -> (supported: bool)
        ensures
            supported == old(self).id_flag_writable,
            supported == spec_probe_result(*old(self)),
            *final(self) == *old(self),
            *final(self) == spec_probe_final(*old(self)),
    {
        let saved = self.read();
        let flipped = flip_id_flag(saved);
        self.write(flipped);
        let readback = self.read();
        let diff = flag_difference(saved, readback);
        self.write(saved);
        proof {
            lemma_probe_detects_writability(*old(self));
            lemma_state_restoration(*old(self));
        }
        id_flag_only_difference(diff)
    }
}

/// The probe reports exactly whether the ID flag is writable: on a
/// register that honours bit-21 writes it answers `true`, on a hard-wired
/// register `false`, whatever word the register held.
pub proof fn lemma_probe_detects_writability(reg: FlagsRegister)
    ensures
        spec_probe_result(reg) == reg.id_flag_writable,
{
    let s = reg.value;
    if reg.id_flag_writable {
        assert(s ^ (s ^ (1u64 << 21)) == 1u64 << 21) by (bit_vector);
    } else {
        assert(s ^ (((s ^ (1u64 << 21)) & !(1u64 << 21)) | (s & (1u64 << 21))) == 0)
            by (bit_vector);
        assert(1u64 << 21 != 0) by (bit_vector);
    }
}

/// The probe restores the register bit-for-bit: after the final write the
/// register holds exactly the word it held before the probe, ID flag
/// included, on supporting and hard-wired registers alike.
pub proof fn lemma_state_restoration(reg: FlagsRegister)
    ensures
        spec_probe_final(reg) == reg,
{
    let s = reg.value;
    if !reg.id_flag_writable {
        assert((s & !(1u64 << 21)) | ((((s ^ (1u64 << 21)) & !(1u64 << 21)) | (s & (1u64
            << 21))) & (1u64 << 21)) == s) by (bit_vector);
    }
}

/// The difference the probe observes is confined to the ID flag: it is
/// either exactly the ID-flag mask or zero, so no bit outside position 21
/// is ever set in it.
pub proof fn lemma_bit_isolation(reg: FlagsRegister)
    ensures
        spec_difference(reg) & !ID_FLAG_MASK == 0,
        spec_difference(reg) == ID_FLAG_MASK || spec_difference(reg) == 0,
{
    let s = reg.value;
    assert(s ^ (s ^ (1u64 << 21)) == 1u64 << 21) by (bit_vector);
    assert(s ^ (((s ^ (1u64 << 21)) & !(1u64 << 21)) | (s & (1u64 << 21))) == 0) by (bit_vector);
    assert((1u64 << 21) & !(1u64 << 21) == 0) by (bit_vector);
    assert(0u64 & !(1u64 << 21) == 0) by (bit_vector);
}

/// Probing is idempotent: a second probe, run on the register the first
/// one left behind, answers the same as the first, and leaves the
/// register in the same state again.
pub proof fn lemma_probe_idempotent(reg: FlagsRegister)
    ensures
        spec_probe_result(spec_probe_final(reg)) == spec_probe_result(reg),
        spec_probe_final(spec_probe_final(reg)) == spec_probe_final(reg),
{
    lemma_state_restoration(reg);
}

} // verus!
