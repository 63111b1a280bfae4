use crate::flags::ConditionFlag;
use vstd::prelude::*;

verus! {

/// Index of the program counter in the register file.
pub const R_PC: usize = 8;

/// Index of the condition register in the register file.
pub const R_COND: usize = 9;

/// Number of registers: R0 to R7, the program counter, the condition register.
pub const R_COUNT: usize = 10;

/// Index of R0, where the trap routines take and leave their value.
pub const R_R0: usize = 0;

/// Index of R7, where a subroutine call leaves the return address.
pub const R_R7: usize = 7;

/// Where user programs are loaded, and where execution starts.
pub const PC_START: u16 = 0x3000;

/// The register file.
pub struct RegisterStorage {
    pub reg: [u16; 10],
}

impl RegisterStorage {
    /// The register file at boot: everything zero but the program counter,
    /// which points at the start of the user program.
    pub fn new() -> (storage: RegisterStorage)
        ensures
            storage.reg@ == boot_registers(),
    {
        let mut reg = [0u16; 10];
        reg[R_PC] = PC_START;
        assert(reg@ =~= boot_registers());
        RegisterStorage { reg }
    }
}

/// The register file with the condition register describing the sign of the
/// word in register `r`.
pub open spec fn flagged(reg: Seq<u16>, r: int) -> Seq<u16> {
    reg.update(R_COND as int, ConditionFlag::spec_of(reg[r]).spec_bits())
}

/// The register file after `word` was loaded into register `r`: the
/// register holds the word and the flags describe it.
pub open spec fn loaded(reg: Seq<u16>, r: int, word: u16) -> Seq<u16> {
    flagged(reg.update(r, word), r)
}

/// The contents of the register file at boot.
pub open spec fn boot_registers() -> Seq<u16> {
    Seq::new(R_COUNT as nat, |i: int| if i == R_PC { PC_START } else { 0u16 })
}

} // verus!
