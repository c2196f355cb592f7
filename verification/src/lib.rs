//! Detection of CPUID availability through the flags register's ID flag.
//!
//! On the x86 family, whether the CPUID instruction may be executed is
//! signalled by one bit of the processor flags register: bit 21, the ID
//! flag, is software-writable exactly when CPUID is available.  The probe
//! saves the register, flips that one bit, writes the result back, reads
//! the register again, and compares: if exactly the ID flag changed, CPUID
//! is supported.  The register is restored before the probe returns.
//!
//! The bit-level steps of that sequence live in [`flags`], each with a
//! contract.  [`register`] models the flags register itself — a word whose
//! ID flag either honours writes or is hard-wired — and proves that the
//! probe run against that model detects writability exactly, restores the
//! register, and never sees a difference outside the ID flag.  The raw
//! hardware access itself cannot be verified and stays with the caller,
//! which feeds the observed register values to [`flags::interpret_probe`].

pub mod flags;
pub mod register;
