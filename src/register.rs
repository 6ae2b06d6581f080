//! The machine status register (`mstatus`), modelled as a value.
//!
//! Only the machine interrupt enable bit (MIE) matters to this crate; every
//! other bit is carried through untouched by the operations below.

use vstd::prelude::*;

verus! {

/// Mask of the machine interrupt enable bit (MIE, bit 3).
pub const MIE_MASK: usize = 0x8;

/// A value of the machine status register.
#[derive(Clone, Copy, Debug, PartialEq, Eq, Structural)]
pub struct Mstatus {
    pub bits: usize,
}

impl Mstatus {
    /// Whether machine-mode interrupts are enabled.
    pub open spec fn mie_spec(self) -> bool {
        self.bits & 0x8 != 0
    }

    /// The same register value with MIE set to `on` and all other bits kept.
    pub open spec fn with_mie(self, on: bool) -> Mstatus {
        if on {
            Mstatus { bits: self.bits | 0x8 }
        } else {
            Mstatus { bits: self.bits & !0x8usize }
        }
    }

    /// A register value holding `bits`.
    pub fn from_bits(bits: usize) -> (r: Mstatus)
        ensures
            r.bits == bits,
    {
        Mstatus { bits }
    }

    /// The raw bits of the register.
    pub fn bits(&self) -> (r: usize)
        ensures
            r == self.bits,
    {
        self.bits
    }

    /// Whether machine-mode interrupts are enabled.
    pub fn mie(&self) -> (r: bool)
        ensures
            r == self.mie_spec(),
    {
        self.bits & MIE_MASK != 0
    }

    /// Sets MIE, leaving the other bits alone.
    pub fn set_mie(&mut self)
        ensures
            *final(self) == old(self).with_mie(true),
    {
        self.bits = self.bits | MIE_MASK;
    }

    /// Clears MIE, leaving the other bits alone.
    pub fn clear_mie(&mut self)
        ensures
            *final(self) == old(self).with_mie(false),
    {
        self.bits = self.bits & !MIE_MASK;
    }
}

/// Writing MIE makes it read back as written.
pub broadcast proof fn lemma_with_mie_reads_back(s: Mstatus, on: bool)
    ensures
        #[trigger] s.with_mie(on).mie_spec() == on,
{
    let b = s.bits;
    assert((b | 0x8usize) & 0x8usize != 0) by (bit_vector);
    assert((b & !0x8usize) & 0x8usize == 0) by (bit_vector);
}

/// Writing MIE with the value it already has changes nothing.
pub broadcast proof fn lemma_with_mie_same(s: Mstatus)
    ensures
        #[trigger] s.with_mie(s.mie_spec()) == s,
{
    let b = s.bits;
    assert(b & 0x8usize != 0 ==> b | 0x8usize == b) by (bit_vector);
    assert(b & 0x8usize == 0 ==> b & !0x8usize == b) by (bit_vector);
}

/// Of two writes to MIE only the second one counts.
pub broadcast proof fn lemma_with_mie_twice(s: Mstatus, a: bool, b: bool)
    ensures
        #[trigger] s.with_mie(a).with_mie(b) == s.with_mie(b),
{
    let x = s.bits;
    assert((x | 0x8usize) | 0x8usize == x | 0x8usize) by (bit_vector);
    assert((x & !0x8usize) | 0x8usize == x | 0x8usize) by (bit_vector);
    assert((x | 0x8usize) & !0x8usize == x & !0x8usize) by (bit_vector);
    assert((x & !0x8usize) & !0x8usize == x & !0x8usize) by (bit_vector);
}

/// The facts about MIE writes that callers of this crate rely on.
pub broadcast group group_mie_writes {
    lemma_with_mie_reads_back,
    lemma_with_mie_same,
    lemma_with_mie_twice,
}

} // verus!
