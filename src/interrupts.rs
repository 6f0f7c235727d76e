//! The interrupt-state controller: the processor's flag register as a plain
//! value, and the two operations on it that a lock needs.
use vstd::prelude::*;

verus! {

/// The interrupt-enable bit (IF) of the RFLAGS register.
pub const FLAGS_IF: u64 = 0x200;

/// Bit 1 of RFLAGS, which the processor always keeps set.
pub const FLAGS_A1: u64 = 0x2;

/// Every RFLAGS bit that the processor defines.
pub const FLAGS_KNOWN: u64 = 0x3f_7fd7;

/// A snapshot of the processor's flag register.
#[derive(Clone, Copy, Debug, PartialEq, Eq, Structural)]
pub struct InterruptFlags {
    pub bits: u64,
}

/// `a` and `b` agree on every bit but the interrupt-enable bit.
pub open spec fn same_but_if(a: u64, b: u64) -> bool {
    a & !FLAGS_IF == b & !FLAGS_IF
}

impl InterruptFlags {
    /// Maskable interrupts are enabled in this snapshot.
    pub open spec fn enabled(self) -> bool {
        self.bits & FLAGS_IF != 0
    }

    /// The register after `cli`: the interrupt-enable bit cleared.
    pub open spec fn disabled_spec(self) -> InterruptFlags {
        InterruptFlags { bits: self.bits & !FLAGS_IF }
    }

    /// The register after restoring `prior`: the current flags with the
    /// interrupt-enable bit of `prior` or-ed in.
    pub open spec fn restored_spec(self, prior: InterruptFlags) -> InterruptFlags {
        InterruptFlags { bits: self.bits | (prior.bits & FLAGS_IF) }
    }

    pub fn from_bits(bits: u64) -> (r: InterruptFlags)
        ensures
            r.bits == bits,
    {
        InterruptFlags { bits }
    }

    pub fn interrupts_enabled(&self) -> (r: bool)
        ensures
            r == self.enabled(),
    {
        self.bits & FLAGS_IF != 0
    }

    /// What `cli` leaves in the register: interrupts off, all else kept.
    pub fn disabled(&self) -> (r: InterruptFlags)
        ensures
            r == self.disabled_spec(),
            !r.enabled(),
            same_but_if(r.bits, self.bits),
    {
        let b = self.bits;
        let rb = b & !FLAGS_IF;
        assert(rb & 0x200u64 == 0 && rb & !0x200u64 == b & !0x200u64) by (bit_vector)
            requires
                rb == b & !0x200u64,
        ;
        InterruptFlags { bits: rb }
    }

    /// The register that restoring `prior` over these flags gives: the
    /// interrupt-enable bit is set if it was set in `prior` (or is set
    /// now), and every other bit stays as it is now.
    pub fn restored(&self, prior: &InterruptFlags) -> (r: InterruptFlags)
        ensures
            r == self.restored_spec(*prior),
            r.enabled() == (prior.enabled() || self.enabled()),
            same_but_if(r.bits, self.bits),
    {
        let b = self.bits;
        let p = prior.bits;
        let rb = b | (p & FLAGS_IF);
        assert((rb & 0x200u64 != 0) == (p & 0x200u64 != 0 || b & 0x200u64 != 0) && rb
            & !0x200u64 == b & !0x200u64) by (bit_vector)
            requires
                rb == b | (p & 0x200u64),
        ;
        InterruptFlags { bits: rb }
    }

    /// Reads the processor's flag register.
    pub fn read_state() -> (r: InterruptFlags)
        ensures
            r.bits & !FLAGS_KNOWN == 0,
            r.bits & FLAGS_A1 != 0,
    {
        InterruptFlags { bits: read_rflags() }
    }

    /// Sets only the interrupt-enable bit of the processor's flag register
    /// back to what `prior` recorded, or-ing it into the current flags.
    /// Returns the flags it read and the flags it wrote; they differ at most
    /// in the interrupt-enable bit.
    pub fn restore_state(prior: &InterruptFlags) -> (r: (InterruptFlags, InterruptFlags))
        ensures
            r.1 == r.0.restored_spec(*prior),
            same_but_if(r.1.bits, r.0.bits),
            r.1.enabled() == (prior.enabled() || r.0.enabled()),
            r.0.bits & !FLAGS_KNOWN == 0,
            r.0.bits & FLAGS_A1 != 0,
            r.1.bits & !FLAGS_KNOWN == 0,
            r.1.bits & FLAGS_A1 != 0,
    {
        let current = InterruptFlags::read_state();
        let next = current.restored(prior);
        let (c, p, n) = (current.bits, prior.bits, next.bits);
        assert(n & !0x3f_7fd7u64 == 0 && n & 0x2u64 != 0) by (bit_vector)
            requires
                n == c | (p & 0x200u64),
                c & !0x3f_7fd7u64 == 0,
                c & 0x2u64 != 0,
        ;
        write_rflags(next.bits);
        (current, next)
    }
}

/// Relies on `x86::current::rflags::read`: `pushfq`, with the bits that the
/// crate does not define dropped by `RFlags::from_bits_truncate`; bit 1 of
/// RFLAGS is always set, and is one of the defined bits.
#[verifier::external_body]
fn read_rflags() -> (r: u64)
    ensures
        r & !FLAGS_KNOWN == 0,
        r & FLAGS_A1 != 0,
{
    x86::current::rflags::read().bits()
}

/// Relies on `x86::current::rflags::set`: `popfq` of the given bits. Its one
/// caller, `restore_state`, hands it the flags it has just read with at most
/// the interrupt-enable bit changed, so every other flag (trap, direction,
/// alignment check) is written back as it already stands.
#[verifier::external_body]
fn write_rflags(bits: u64) {
    x86::current::rflags::set(x86::current::rflags::RFlags::from_bits_truncate(bits))
}

} // verus!
