//! General-purpose registers of a guest.

use vstd::prelude::*;

verus! {

/// Number of general-purpose registers, `x0` to `x30`.
pub const NUM_GENERAL_REGS: usize = 31;

/// The general-purpose registers `x0` to `x30` of a guest, in index order.
#[derive(Clone, Copy, Debug)]
pub struct GeneralRegisters {
    pub x: [u64; 31],
}

impl View for GeneralRegisters {
    type V = Seq<u64>;

    open spec fn view(&self) -> Seq<u64> {
        self.x@
    }
}

/// The register file in which every register holds zero.
pub open spec fn zero_registers() -> Seq<u64> {
    Seq::new(NUM_GENERAL_REGS as nat, |i: int| 0u64)
}

impl Default for GeneralRegisters {
    fn default() -> (r: Self)
        ensures
            r@ == zero_registers(),
    {
        let r = GeneralRegisters { x: [0u64; 31] };
        assert(r@ =~= zero_registers());
        r
    }
}

impl GeneralRegisters {
    /// Value of register `x<i>`.
    pub fn get(&self, i: usize) -> (v: u64)
        requires
            i < NUM_GENERAL_REGS,
        ensures
            v == self@[i as int],
    {
        self.x[i]
    }

    /// Stores `value` in register `x<i>` and leaves the others as they are.
    pub fn set(&mut self, i: usize, value: u64)
        requires
            i < NUM_GENERAL_REGS,
        ensures
            final(self)@ == old(self)@.update(i as int, value),
    {
        self.x[i] = value;
        assert(self@ =~= old(self)@.update(i as int, value));
    }
}

} // verus!
