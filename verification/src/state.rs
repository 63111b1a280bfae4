use crate::console::ConsoleView;
use crate::memory::MEMORY_SIZE;
use crate::memory_mapped_registers::{input_after_read, memory_after_read};
use crate::registers::{loaded, R_COUNT, R_PC};
use vstd::prelude::*;

verus! {

/// Everything an instruction can read or change, as mathematical values: the
/// words of memory, the words of the register file and the console.
pub struct State {
    pub memory: Seq<u16>,
    pub reg: Seq<u16>,
    pub console: ConsoleView,
}

/// `value` reduced modulo 2^16: what a register holds after arithmetic.
pub open spec fn wrap16(value: int) -> u16 {
    (value % 0x10000) as u16
}

impl State {
    /// Whether the state is that of a machine: memory has a word for every
    /// address, and the register file has all its registers.
    pub open spec fn well_formed(self) -> bool {
        self.memory.len() == MEMORY_SIZE && self.reg.len() == R_COUNT
    }

    /// The program counter.
    pub open spec fn pc(self) -> u16 {
        self.reg[R_PC as int]
    }

    /// The state with `word` in register `r`.
    pub open spec fn with_reg(self, r: int, word: u16) -> State {
        State { reg: self.reg.update(r, word), ..self }
    }

    /// The state after `word` was loaded into register `r`: the register
    /// holds the word and the flags describe it.
    pub open spec fn loaded(self, r: int, word: u16) -> State {
        State { reg: loaded(self.reg, r, word), ..self }
    }

    /// The state after a read of `address`, which polls the keyboard where
    /// the address is that of the keyboard data register.
    pub open spec fn after_read(self, address: int) -> State {
        State {
            memory: memory_after_read(self.memory, self.console.input, address),
            console: ConsoleView {
                input: input_after_read(self.console.input, address),
                ..self.console
            },
            ..self
        }
    }

    /// The word that a read of `address` returns.
    pub open spec fn word_at(self, address: int) -> u16 {
        self.after_read(address).memory[address]
    }

    /// The state after `word` was stored at `address`.
    pub open spec fn after_write(self, address: int, word: u16) -> State {
        State { memory: self.memory.update(address, word), ..self }
    }

    /// The state with another console.
    pub open spec fn with_console(self, console: ConsoleView) -> State {
        State { console, ..self }
    }
}

} // verus!
