use crate::console::{Console, ConsoleView};
use crate::memory::MEMORY_SIZE;
use crate::outcome::{Fault, Outcome};
use crate::registers::R_R0;
use crate::state::State;
use vstd::prelude::*;

verus! {

/// The routines that a trap instruction can call, and a tag for every
/// vector that has none.
#[derive(Debug, PartialEq, Eq, Clone, Copy, Structural)]
pub enum TrapCode {
    /// Read one character, without echo.
    TrapGetc,
    /// Write one character.
    TrapOut,
    /// Write a string of one character per word.
    TrapPuts,
    /// Prompt, read one character and echo it.
    TrapIn,
    /// Write a string of two characters per word.
    TrapPutSp,
    /// Stop the machine.
    TrapHalt,
    /// No routine.
    TrapEmpty,
}

impl From<u16> for TrapCode {
    /// The routine that the vector `x` selects.
    fn from(x: u16) -> (code: TrapCode) {
        match x {
            0x20 => TrapCode::TrapGetc,
            0x21 => TrapCode::TrapOut,
            0x22 => TrapCode::TrapPuts,
            0x23 => TrapCode::TrapIn,
            0x24 => TrapCode::TrapPutSp,
            0x25 => TrapCode::TrapHalt,
            _ => TrapCode::TrapEmpty,
        }
    }
}

impl vstd::std_specs::convert::FromSpecImpl<u16> for TrapCode {
    open spec fn obeys_from_spec() -> bool {
        true
    }

    open spec fn from_spec(x: u16) -> TrapCode {
        TrapCode::of_vector(x)
    }
}

impl TrapCode {
    /// The routine that a trap vector selects: one of the six that exist,
    /// or the tag for none.
    pub open spec fn of_vector(vector: u16) -> TrapCode {
        if vector == 0x20 {
            TrapCode::TrapGetc
        } else if vector == 0x21 {
            TrapCode::TrapOut
        } else if vector == 0x22 {
            TrapCode::TrapPuts
        } else if vector == 0x23 {
            TrapCode::TrapIn
        } else if vector == 0x24 {
            TrapCode::TrapPutSp
        } else if vector == 0x25 {
            TrapCode::TrapHalt
        } else {
            TrapCode::TrapEmpty
        }
    }
}

/// The low eight bits of a word.
pub open spec fn low_byte(word: u16) -> u8 {
    (word % 256) as u8
}

/// The high eight bits of a word.
pub open spec fn high_byte(word: u16) -> u8 {
    (word / 256) as u8
}

/// Where the string that starts at `start` ends: the address of the first
/// zero word at or after `start`, or the length of memory if there is none.
pub open spec fn string_end(memory: Seq<u16>, start: int) -> int
    decreases memory.len() - start,
{
    if start < memory.len() && memory[start] != 0 {
        string_end(memory, start + 1)
    } else {
        start
    }
}

/// The characters of the words from `start` up to `end`, one per word: the
/// low byte of each.
pub open spec fn plain_text(memory: Seq<u16>, start: int, end: int) -> Seq<u8> {
    Seq::new((end - start) as nat, |i: int| low_byte(memory[start + i]))
}

/// The characters packed in one word: the low byte, then the high byte
/// unless it is zero.
pub open spec fn packed_chars(word: u16) -> Seq<u8> {
    if high_byte(word) != 0 {
        seq![low_byte(word), high_byte(word)]
    } else {
        seq![low_byte(word)]
    }
}

/// The characters of the words from `start` up to `end`, two packed per
/// word.
pub open spec fn packed_text(memory: Seq<u16>, start: int, end: int) -> Seq<u8>
    decreases end - start,
{
    if end <= start {
        Seq::empty()
    } else {
        packed_text(memory, start, end - 1) + packed_chars(memory[end - 1])
    }
}

/// What the halt trap writes: `HALT` and a line feed.
pub open spec fn halt_message() -> Seq<u8> {
    seq![72u8, 65u8, 76u8, 84u8, 10u8]
}

/// What the input trap writes before it reads: `Enter a character: `.
pub open spec fn prompt() -> Seq<u8> {
    seq![
        69u8, 110u8, 116u8, 101u8, 114u8, 32u8, 97u8, 32u8, 99u8, 104u8, 97u8, 114u8, 97u8,
        99u8, 116u8, 101u8, 114u8, 58u8, 32u8,
    ]
}

/// What the input trap still has to write before it reads: the prompt,
/// unless it stands on the console unanswered.
pub open spec fn pending_prompt(console: ConsoleView) -> Seq<u8> {
    if console.prompted {
        Seq::empty()
    } else {
        prompt()
    }
}

/// How a trap ends that has written a string up to `end`: a string that
/// found no zero word before the end of memory has run out of it.
pub open spec fn string_outcome(memory: Seq<u16>, end: int) -> Outcome {
    if end < memory.len() {
        Outcome::Continue
    } else {
        Outcome::Fault(Fault::AddressOutOfRange)
    }
}

/// What a trap routine does to the machine, and how it ends.
///
/// The two routines that read take the oldest typed character. With none
/// typed they block: the registers stay as they are, and the instruction is
/// to be executed again once the host has supplied a character. The input
/// trap writes its prompt once, also when it blocks first.
///
/// The two routines that write a string read it from the address in R0 up
/// to the first zero word, straight from memory. A string that reaches the
/// end of memory is written as far as memory goes, and the trap faults.
pub open spec fn trap_effect(code: TrapCode, s: State) -> (State, Outcome) {
    let console = s.console;
    let start = s.reg[R_R0 as int] as int;
    let end = string_end(s.memory, start);
    match code {
        TrapCode::TrapGetc => if console.input.len() > 0 {
            (s.with_reg(R_R0 as int, console.input[0] as u16).with_console(console.take()),
                Outcome::Continue)
        } else {
            (s, Outcome::Blocked)
        },
        TrapCode::TrapOut => (s.with_console(console.write(seq![low_byte(s.reg[R_R0 as int])])),
            Outcome::Continue),
        TrapCode::TrapPuts => (s.with_console(console.write(plain_text(s.memory, start, end))),
            string_outcome(s.memory, end)),
        TrapCode::TrapIn => if console.input.len() > 0 {
            let key = console.input[0];
            (s.with_reg(R_R0 as int, key as u16).with_console(
                ConsoleView {
                    input: console.input.drop_first(),
                    output: console.output + pending_prompt(console) + seq![key],
                    prompted: false,
                },
            ), Outcome::Continue)
        } else {
            (s.with_console(
                ConsoleView {
                    input: console.input,
                    output: console.output + pending_prompt(console),
                    prompted: true,
                },
            ), Outcome::Blocked)
        },
        TrapCode::TrapPutSp => (s.with_console(console.write(packed_text(s.memory, start, end))),
            string_outcome(s.memory, end)),
        TrapCode::TrapHalt => (s.with_console(console.write(halt_message())), Outcome::Halt),
        TrapCode::TrapEmpty => (s, Outcome::Fault(Fault::UnknownTrap)),
    }
}

/// A string ends at `end` if no word before it is zero and it is the end of
/// memory or a zero word.
pub proof fn lemma_string_end(memory: Seq<u16>, start: int, end: int)
    requires
        0 <= start <= end <= memory.len(),
        forall|i: int| start <= i < end ==> memory[i] != 0,
        end < memory.len() ==> memory[end] == 0,
    ensures
        string_end(memory, start) == end,
    decreases end - start,
{
    if start < end {
        lemma_string_end(memory, start + 1, end);
    }
}

/// The end of a string lies from its start on, within memory or just behind
/// it; no word before it is zero, and it is a zero word unless it is the end
/// of memory.
pub proof fn lemma_string_end_is_first_zero(memory: Seq<u16>, start: int)
    requires
        0 <= start <= memory.len(),
    ensures
        start <= string_end(memory, start) <= memory.len(),
        forall|i: int| start <= i < string_end(memory, start) ==> memory[i] != 0,
        string_end(memory, start) < memory.len() ==> memory[string_end(memory, start)] == 0,
    decreases memory.len() - start,
{
    if start < memory.len() && memory[start] != 0 {
        lemma_string_end_is_first_zero(memory, start + 1);
    }
}

/// The two bytes of a word, as the masks and shifts of the routines compute
/// them.
proof fn lemma_bytes(word: u16)
    by (bit_vector)
    ensures
        word & 0xFF == word % 256,
        word >> 8 == word / 256,
{
}

/// Appends `text` to what the machine has written.
fn write_text(console: &mut Console, text: &[u8])
    ensures
        final(console)@ == old(console)@.write(text@),
{
    let mut i: usize = 0;
    while i < text.len()
        invariant
            i <= text.len(),
            console@.input == old(console)@.input,
            console@.prompted == old(console)@.prompted,
            console@.output == old(console)@.output + text@.take(i as int),
        decreases text.len() - i,
    {
        console.output.push(text[i]);
        assert(text@.take(i + 1) =~= text@.take(i as int).push(text@[i as int]));
        i += 1;
    }
    assert(text@.take(i as int) =~= text@);
}

impl TrapCode {
    /// Runs the routine: see [`trap_effect`]. Memory is only read.
    pub fn dispatch(
        &self,
        memory: &[u16; 65536],
        reg: &mut [u16; 10],
        console: &mut Console,
    ) -> (outcome: Outcome)
        ensures
            (State { memory: memory@, reg: final(reg)@, console: final(console)@ }, outcome)
                == trap_effect(
                *self,
                State { memory: memory@, reg: old(reg)@, console: old(console)@ },
            ),
    {
        match self {
            TrapCode::TrapGetc => {
                if console.input.len() > 0 {
                    let key = console.input.remove(0);
                    assert(console.input@ =~= old(console).input@.drop_first());
                    reg[R_R0] = key as u16;
                    Outcome::Continue
                } else {
                    Outcome::Blocked
                }
            },
            TrapCode::TrapOut => {
                proof {
                    lemma_bytes(reg[0]);
                }
                let word: u16 = reg[R_R0] & 0xFF;
                console.output.push(word as u8);
                assert(console.output@ =~= old(console).output@ + seq![low_byte(reg[0])]);
                Outcome::Continue
            },
            TrapCode::TrapPuts => {
                let start: usize = reg[R_R0] as usize;
                let mut i: usize = start;
                while i < MEMORY_SIZE && memory[i] != 0
                    invariant
                        start <= i <= MEMORY_SIZE,
                        forall|j: int| start <= j < i ==> memory@[j] != 0,
                        console@.input == old(console)@.input,
                        console@.prompted == old(console)@.prompted,
                        console@.output == old(console)@.output + plain_text(
                            memory@,
                            start as int,
                            i as int,
                        ),
                        reg@ == old(reg)@,
                    decreases MEMORY_SIZE - i,
                {
                    proof {
                        lemma_bytes(memory[i as int]);
                    }
                    let word: u16 = memory[i] & 0xFF;
                    console.output.push(word as u8);
                    assert(plain_text(memory@, start as int, i + 1) =~= plain_text(
                        memory@,
                        start as int,
                        i as int,
                    ).push(low_byte(memory@[i as int])));
                    i += 1;
                }
                proof {
                    lemma_string_end(memory@, start as int, i as int);
                }
                if i < MEMORY_SIZE {
                    Outcome::Continue
                } else {
                    Outcome::Fault(Fault::AddressOutOfRange)
                }
            },
            TrapCode::TrapIn => {
                if !console.prompted {
                    write_text(
                        console,
                        &[
                            69, 110, 116, 101, 114, 32, 97, 32, 99, 104, 97, 114, 97, 99, 116, 101,
                            114, 58, 32,
                        ],
                    );
                    assert(console.output@ =~= old(console).output@ + prompt());
                }
                if console.input.len() > 0 {
                    let key = console.input.remove(0);
                    assert(console.input@ =~= old(console).input@.drop_first());
                    console.output.push(key);
                    console.prompted = false;
                    reg[R_R0] = key as u16;
                    assert(console.output@ =~= old(console).output@ + pending_prompt(old(console)@)
                        + seq![key]);
                    Outcome::Continue
                } else {
                    console.prompted = true;
                    assert(console.output@ =~= old(console).output@ + pending_prompt(
                        old(console)@,
                    ));
                    Outcome::Blocked
                }
            },
            TrapCode::TrapPutSp => {
                let start: usize = reg[R_R0] as usize;
                let mut i: usize = start;
                assert(packed_text(memory@, start as int, start as int) =~= Seq::<u8>::empty());
                while i < MEMORY_SIZE && memory[i] != 0
                    invariant
                        start <= i <= MEMORY_SIZE,
                        forall|j: int| start <= j < i ==> memory@[j] != 0,
                        console@.input == old(console)@.input,
                        console@.prompted == old(console)@.prompted,
                        console@.output == old(console)@.output + packed_text(
                            memory@,
                            start as int,
                            i as int,
                        ),
                        reg@ == old(reg)@,
                    decreases MEMORY_SIZE - i,
                {
                    proof {
                        lemma_bytes(memory[i as int]);
                    }
                    let low: u16 = memory[i] & 0xFF;
                    let high: u16 = memory[i] >> 8;
                    console.output.push(low as u8);
                    if high != 0 {
                        console.output.push(high as u8);
                    }
                    assert(console.output@ =~= old(console).output@ + packed_text(
                        memory@,
                        start as int,
                        i + 1,
                    ));
                    i += 1;
                }
                proof {
                    lemma_string_end(memory@, start as int, i as int);
                }
                if i < MEMORY_SIZE {
                    Outcome::Continue
                } else {
                    Outcome::Fault(Fault::AddressOutOfRange)
                }
            },
            TrapCode::TrapHalt => {
                write_text(console, &[72, 65, 76, 84, 10]);
                assert(console.output@ =~= old(console).output@ + halt_message());
                Outcome::Halt
            },
            TrapCode::TrapEmpty => Outcome::Fault(Fault::UnknownTrap),
        }
    }
}

} // verus!
