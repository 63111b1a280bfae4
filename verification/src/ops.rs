use crate::console::Console;
use crate::decoder::{
    dest_register, imm5, immediate_mode, long_mode, offset6, pc_offset11, pc_offset9,
    second_register, source_register, spec_dest_register, spec_imm5, spec_immediate_mode,
    spec_long_mode, spec_offset6, spec_pc_offset11, spec_pc_offset9, spec_second_register,
    spec_source_register, spec_trap_vector, trap_vector,
};
use crate::flags::{is_flag, signed, ConditionFlag};
use crate::memory_mapped_registers::{mem_read, mem_write, polls};
use crate::outcome::{Fault, Outcome};
use crate::registers::{flagged, loaded, R_COND, R_COUNT, R_PC, R_R0, R_R7};
use crate::state::{wrap16, State};
use crate::traps::{lemma_string_end_is_first_zero, string_end, trap_effect, TrapCode};
use vstd::prelude::*;

verus! {

/// The sixteen operations, in the order of their codes.
#[derive(Debug, PartialEq, Eq, Clone, Copy, Structural)]
pub enum OpCode {
    /// Branch.
    OpBr,
    /// Add.
    OpAdd,
    /// Load.
    OpLd,
    /// Store.
    OpSt,
    /// Jump to a subroutine.
    OpJsr,
    /// Bitwise and.
    OpAnd,
    /// Load from a base register and an offset.
    OpLdr,
    /// Store at a base register and an offset.
    OpStr,
    /// Unused.
    OpRti,
    /// Bitwise not.
    OpNot,
    /// Load through a pointer.
    OpLdi,
    /// Store through a pointer.
    OpSti,
    /// Jump.
    OpJmp,
    /// Reserved.
    OpRes,
    /// Load an effective address.
    OpLea,
    /// Call a trap routine.
    OpTrap,
}

impl From<u16> for OpCode {
    /// The operation with the code `n`.
    fn from(n: u16) -> (op: OpCode) {
        match n {
            0 => OpCode::OpBr,
            1 => OpCode::OpAdd,
            2 => OpCode::OpLd,
            3 => OpCode::OpSt,
            4 => OpCode::OpJsr,
            5 => OpCode::OpAnd,
            6 => OpCode::OpLdr,
            7 => OpCode::OpStr,
            8 => OpCode::OpRti,
            9 => OpCode::OpNot,
            10 => OpCode::OpLdi,
            11 => OpCode::OpSti,
            12 => OpCode::OpJmp,
            13 => OpCode::OpRes,
            14 => OpCode::OpLea,
            _ => OpCode::OpTrap,
        }
    }
}

impl vstd::std_specs::convert::FromSpecImpl<u16> for OpCode {
    open spec fn obeys_from_spec() -> bool {
        true
    }

    open spec fn from_spec(n: u16) -> OpCode {
        OpCode::of_code(n)
    }
}

/// The second operand of an addition or a conjunction: the immediate of the
/// instruction in immediate mode, else the second source register.
pub open spec fn second_operand(instr: u16, reg: Seq<u16>) -> u16 {
    if spec_immediate_mode(instr) {
        spec_imm5(instr)
    } else {
        reg[spec_second_register(instr) as int]
    }
}

/// The address that lies the signed `offset` from `base`.
pub open spec fn displaced(base: u16, offset: u16) -> u16 {
    wrap16(base + offset)
}

/// The register file after an operation that works on registers alone. The
/// program counter in `reg` already points behind the instruction.
///
/// Arithmetic wraps modulo 2^16. The four operations that write a general
/// register set the flags from what they wrote; branch and jumps leave the
/// flags alone. A branch is taken if the condition register holds a flag
/// that the mask of the instruction asks for. A subroutine call first saves
/// the program counter in R7, then jumps.
pub open spec fn computed(op: OpCode, instr: u16, reg: Seq<u16>) -> Seq<u16> {
    let dr = spec_dest_register(instr) as int;
    let sr = spec_source_register(instr) as int;
    let pc = reg[R_PC as int];
    match op {
        OpCode::OpAdd => loaded(reg, dr, wrap16(reg[sr] + second_operand(instr, reg))),
        OpCode::OpAnd => loaded(reg, dr, reg[sr] & second_operand(instr, reg)),
        OpCode::OpNot => loaded(reg, dr, !reg[sr]),
        OpCode::OpLea => loaded(reg, dr, displaced(pc, spec_pc_offset9(instr))),
        OpCode::OpBr => if spec_dest_register(instr) & reg[R_COND as int] != 0 {
            reg.update(R_PC as int, displaced(pc, spec_pc_offset9(instr)))
        } else {
            reg
        },
        OpCode::OpJmp => reg.update(R_PC as int, reg[sr]),
        OpCode::OpJsr => {
            let linked = reg.update(R_R7 as int, pc);
            if spec_long_mode(instr) {
                linked.update(R_PC as int, displaced(pc, spec_pc_offset11(instr)))
            } else {
                linked.update(R_PC as int, linked[sr])
            }
        },
        _ => reg,
    }
}

/// What executing the instruction `instr`, whose operation is `op`, does to
/// the machine, and how it ends. The program counter in `s` already points
/// behind the instruction.
///
/// The operations on registers change the register file alone: see
/// [`computed`]. Loads read memory with the keyboard poll of a read and set
/// the flags from the word they loaded; stores leave the flags alone. The
/// two indirect operations first read a pointer, then load or store at the
/// address it holds. The two unused operations fault.
pub open spec fn execute(op: OpCode, instr: u16, s: State) -> (State, Outcome) {
    let dr = spec_dest_register(instr) as int;
    let pc_relative = displaced(s.pc(), spec_pc_offset9(instr)) as int;
    let based = displaced(s.reg[spec_source_register(instr) as int], spec_offset6(instr)) as int;
    let pointer = s.word_at(pc_relative) as int;
    match op {
        OpCode::OpAdd | OpCode::OpAnd | OpCode::OpNot | OpCode::OpLea | OpCode::OpBr
        | OpCode::OpJmp | OpCode::OpJsr => (State { reg: computed(op, instr, s.reg), ..s },
            Outcome::Continue),
        OpCode::OpLd => (s.after_read(pc_relative).loaded(dr, s.word_at(pc_relative)),
            Outcome::Continue),
        OpCode::OpLdi => (s.after_read(pc_relative).after_read(pointer).loaded(
            dr,
            s.after_read(pc_relative).word_at(pointer),
        ), Outcome::Continue),
        OpCode::OpLdr => (s.after_read(based).loaded(dr, s.word_at(based)), Outcome::Continue),
        OpCode::OpSt => (s.after_write(pc_relative, s.reg[dr]), Outcome::Continue),
        OpCode::OpSti => (s.after_read(pc_relative).after_write(pointer, s.reg[dr]),
            Outcome::Continue),
        OpCode::OpStr => (s.after_write(based, s.reg[dr]), Outcome::Continue),
        OpCode::OpTrap => trap_effect(TrapCode::of_vector(spec_trap_vector(instr)), s),
        OpCode::OpRti | OpCode::OpRes => (s, Outcome::Fault(Fault::ReservedOpcode)),
    }
}

/// Sets the condition register to the flag that describes the sign of the
/// word in register `r`.
pub fn update_flags(r: u16, reg: &mut [u16; 10])
    requires
        r < R_COUNT,
    ensures
        final(reg)@ == flagged(old(reg)@, r as int),
{
    reg[R_COND] = ConditionFlag::of(reg[r as usize]).bits();
}

/// Addition: the destination register takes the sum of the first source
/// register and the second operand.
fn op_add(reg: &mut [u16; 10], instr: u16)
    ensures
        final(reg)@ == computed(OpCode::OpAdd, instr, old(reg)@),
{
    let r0 = dest_register(instr);
    let r1 = source_register(instr);
    if immediate_mode(instr) {
        let operand = imm5(instr);
        reg[r0 as usize] = reg[r1 as usize].wrapping_add(operand);
    } else {
        let r2 = second_register(instr);
        reg[r0 as usize] = reg[r1 as usize].wrapping_add(reg[r2 as usize]);
    }
    update_flags(r0, reg);
}

/// Conjunction: the destination register takes the bitwise and of the first
/// source register and the second operand.
fn op_and(reg: &mut [u16; 10], instr: u16)
    ensures
        final(reg)@ == computed(OpCode::OpAnd, instr, old(reg)@),
{
    let r0 = dest_register(instr);
    let r1 = source_register(instr);
    if immediate_mode(instr) {
        let operand = imm5(instr);
        reg[r0 as usize] = reg[r1 as usize] & operand;
    } else {
        let r2 = second_register(instr);
        reg[r0 as usize] = reg[r1 as usize] & reg[r2 as usize];
    }
    update_flags(r0, reg);
}

/// Complement: the destination register takes the bitwise not of the source
/// register.
fn op_not(reg: &mut [u16; 10], instr: u16)
    ensures
        final(reg)@ == computed(OpCode::OpNot, instr, old(reg)@),
{
    let r0 = dest_register(instr);
    let r1 = source_register(instr);
    reg[r0 as usize] = !reg[r1 as usize];
    update_flags(r0, reg);
}

/// Effective address: the destination register takes the address that a
/// load with the same offset would read.
fn op_lea(reg: &mut [u16; 10], instr: u16)
    ensures
        final(reg)@ == computed(OpCode::OpLea, instr, old(reg)@),
{
    let r0 = dest_register(instr);
    let pc_offset = pc_offset9(instr);
    reg[r0 as usize] = reg[R_PC].wrapping_add(pc_offset);
    update_flags(r0, reg);
}

/// Branch: the program counter moves by the offset if the condition
/// register holds a flag that the mask asks for.
fn op_br(reg: &mut [u16; 10], instr: u16)
    ensures
        final(reg)@ == computed(OpCode::OpBr, instr, old(reg)@),
{
    let pc_offset = pc_offset9(instr);
    let cond_flag = dest_register(instr);
    if cond_flag & reg[R_COND] != 0 {
        reg[R_PC] = reg[R_PC].wrapping_add(pc_offset);
    }
}

/// Jump: the program counter takes the word in the base register.
fn op_jmp(reg: &mut [u16; 10], instr: u16)
    ensures
        final(reg)@ == computed(OpCode::OpJmp, instr, old(reg)@),
{
    let r1 = source_register(instr);
    reg[R_PC] = reg[r1 as usize];
}

/// Subroutine call: R7 takes the program counter, which then moves by the
/// long offset or takes the word in the base register.
fn op_jsr(reg: &mut [u16; 10], instr: u16)
    ensures
        final(reg)@ == computed(OpCode::OpJsr, instr, old(reg)@),
{
    let r1 = source_register(instr);
    let long_pc_offset = pc_offset11(instr);
    let pc = reg[R_PC];
    reg[R_R7] = pc;
    if long_mode(instr) {
        reg[R_PC] = pc.wrapping_add(long_pc_offset);
    } else {
        reg[R_PC] = reg[r1 as usize];
    }
}

/// Load: the destination register takes the word at the offset from the
/// program counter.
fn op_ld(memory: &mut [u16; 65536], reg: &mut [u16; 10], instr: u16, console: &mut Console)
    ensures
        (State { memory: final(memory)@, reg: final(reg)@, console: final(console)@ })
            == execute(
            OpCode::OpLd,
            instr,
            State { memory: old(memory)@, reg: old(reg)@, console: old(console)@ },
        ).0,
{
    let r0 = dest_register(instr);
    let pc_offset = pc_offset9(instr);
    let address = reg[R_PC].wrapping_add(pc_offset);
    reg[r0 as usize] = mem_read(address as usize, memory, console);
    update_flags(r0, reg);
}

/// Indirect load: the word at the offset from the program counter is the
/// address of the word that the destination register takes.
fn op_ldi(memory: &mut [u16; 65536], reg: &mut [u16; 10], instr: u16, console: &mut Console)
    ensures
        (State { memory: final(memory)@, reg: final(reg)@, console: final(console)@ })
            == execute(
            OpCode::OpLdi,
            instr,
            State { memory: old(memory)@, reg: old(reg)@, console: old(console)@ },
        ).0,
{
    let r0 = dest_register(instr);
    let pc_offset = pc_offset9(instr);
    let address = reg[R_PC].wrapping_add(pc_offset);
    let pointer = mem_read(address as usize, memory, console);
    reg[r0 as usize] = mem_read(pointer as usize, memory, console);
    update_flags(r0, reg);
}

/// Load from a base: the destination register takes the word at the offset
/// from the base register.
fn op_ldr(memory: &mut [u16; 65536], reg: &mut [u16; 10], instr: u16, console: &mut Console)
    ensures
        (State { memory: final(memory)@, reg: final(reg)@, console: final(console)@ })
            == execute(
            OpCode::OpLdr,
            instr,
            State { memory: old(memory)@, reg: old(reg)@, console: old(console)@ },
        ).0,
{
    let r0 = dest_register(instr);
    let r1 = source_register(instr);
    let offset = offset6(instr);
    let address = reg[r1 as usize].wrapping_add(offset);
    reg[r0 as usize] = mem_read(address as usize, memory, console);
    update_flags(r0, reg);
}

/// Store: the word at the offset from the program counter takes the
/// register.
fn op_st(memory: &mut [u16; 65536], reg: &[u16; 10], instr: u16)
    ensures
        final(memory)@ == old(memory)@.update(
            displaced(reg@[R_PC as int], spec_pc_offset9(instr)) as int,
            reg@[spec_dest_register(instr) as int],
        ),
{
    let r0 = dest_register(instr);
    let pc_offset = pc_offset9(instr);
    let address = reg[R_PC].wrapping_add(pc_offset);
    mem_write(address as usize, reg[r0 as usize], memory);
}

/// Indirect store: the word at the offset from the program counter is the
/// address of the word that takes the register.
fn op_sti(memory: &mut [u16; 65536], reg: &[u16; 10], instr: u16, console: &mut Console)
    ensures
        (State { memory: final(memory)@, reg: reg@, console: final(console)@ }) == execute(
            OpCode::OpSti,
            instr,
            State { memory: old(memory)@, reg: reg@, console: old(console)@ },
        ).0,
{
    let r0 = dest_register(instr);
    let pc_offset = pc_offset9(instr);
    let address = reg[R_PC].wrapping_add(pc_offset);
    let pointer = mem_read(address as usize, memory, console);
    mem_write(pointer as usize, reg[r0 as usize], memory);
}

/// Store at a base: the word at the offset from the base register takes
/// the register.
fn op_str(memory: &mut [u16; 65536], reg: &[u16; 10], instr: u16)
    ensures
        final(memory)@ == old(memory)@.update(
            displaced(reg@[spec_source_register(instr) as int], spec_offset6(instr)) as int,
            reg@[spec_dest_register(instr) as int],
        ),
{
    let r0 = dest_register(instr);
    let r1 = source_register(instr);
    let offset = offset6(instr);
    let address = reg[r1 as usize].wrapping_add(offset);
    mem_write(address as usize, reg[r0 as usize], memory);
}

impl OpCode {
    /// The operation with the code `n`. The last operation stands for every
    /// number from its code on.
    pub open spec fn of_code(n: u16) -> OpCode {
        if n == 0 {
            OpCode::OpBr
        } else if n == 1 {
            OpCode::OpAdd
        } else if n == 2 {
            OpCode::OpLd
        } else if n == 3 {
            OpCode::OpSt
        } else if n == 4 {
            OpCode::OpJsr
        } else if n == 5 {
            OpCode::OpAnd
        } else if n == 6 {
            OpCode::OpLdr
        } else if n == 7 {
            OpCode::OpStr
        } else if n == 8 {
            OpCode::OpRti
        } else if n == 9 {
            OpCode::OpNot
        } else if n == 10 {
            OpCode::OpLdi
        } else if n == 11 {
            OpCode::OpSti
        } else if n == 12 {
            OpCode::OpJmp
        } else if n == 13 {
            OpCode::OpRes
        } else if n == 14 {
            OpCode::OpLea
        } else {
            OpCode::OpTrap
        }
    }

    /// The operation of an instruction: the one whose code is in bits 15 to
    /// 12.
    pub open spec fn spec_decode(instr: u16) -> OpCode {
        OpCode::of_code((instr / 4096) as u16)
    }

    /// Whether the operation sets the condition flags: the operations that
    /// write a register other than the program counter do.
    pub open spec fn sets_flags(self) -> bool {
        match self {
            OpCode::OpAdd | OpCode::OpAnd | OpCode::OpNot | OpCode::OpLd | OpCode::OpLdi
            | OpCode::OpLdr | OpCode::OpLea => true,
            _ => false,
        }
    }

    /// The operation of an instruction.
    #[verifier::when_used_as_spec(spec_decode)]
    pub fn decode(instr: u16) -> (op: OpCode)
        ensures
            op == Self::spec_decode(instr),
    {
        assert(instr >> 12 == instr / 4096) by (bit_vector);
        OpCode::from(instr >> 12)
    }

    /// Executes an instruction that works on registers alone: see
    /// [`computed`]. For any other operation the registers stay as they are.
    pub fn compute(&self, reg: &mut [u16; 10], instr: u16)
        ensures
            final(reg)@ == computed(*self, instr, old(reg)@),
    {
        match self {
            OpCode::OpAdd => op_add(reg, instr),
            OpCode::OpAnd => op_and(reg, instr),
            OpCode::OpNot => op_not(reg, instr),
            OpCode::OpLea => op_lea(reg, instr),
            OpCode::OpBr => op_br(reg, instr),
            OpCode::OpJmp => op_jmp(reg, instr),
            OpCode::OpJsr => op_jsr(reg, instr),
            _ => {},
        }
    }

    /// Executes the instruction `instr`, whose operation is `self`: see
    /// [`execute`].
    pub fn run(
        &self,
        memory: &mut [u16; 65536],
        reg: &mut [u16; 10],
        instr: u16,
        console: &mut Console,
    ) -> (outcome: Outcome)
        ensures
            (State { memory: final(memory)@, reg: final(reg)@, console: final(console)@ }, outcome)
                == execute(
                *self,
                instr,
                State { memory: old(memory)@, reg: old(reg)@, console: old(console)@ },
            ),
    {
        match self {
            OpCode::OpAdd | OpCode::OpAnd | OpCode::OpNot | OpCode::OpLea | OpCode::OpBr
            | OpCode::OpJmp | OpCode::OpJsr => {
                self.compute(reg, instr);
                Outcome::Continue
            },
            OpCode::OpLd => {
                op_ld(memory, reg, instr, console);
                Outcome::Continue
            },
            OpCode::OpLdi => {
                op_ldi(memory, reg, instr, console);
                Outcome::Continue
            },
            OpCode::OpLdr => {
                op_ldr(memory, reg, instr, console);
                Outcome::Continue
            },
            OpCode::OpSt => {
                op_st(memory, reg, instr);
                Outcome::Continue
            },
            OpCode::OpSti => {
                op_sti(memory, reg, instr, console);
                Outcome::Continue
            },
            OpCode::OpStr => {
                op_str(memory, reg, instr);
                Outcome::Continue
            },
            OpCode::OpTrap => TrapCode::from(trap_vector(instr)).dispatch(memory, reg, console),
            OpCode::OpRti | OpCode::OpRes => Outcome::Fault(Fault::ReservedOpcode),
        }
    }
}

/// Decoding is total and loses nothing: the sixteen codes have sixteen
/// different operations.
pub proof fn lemma_codes_are_distinct(m: u16, n: u16)
    requires
        m < 16,
        n < 16,
        OpCode::of_code(m) == OpCode::of_code(n),
    ensures
        m == n,
{
}

/// No instruction creates or destroys memory or registers.
pub proof fn lemma_execute_keeps_shape(op: OpCode, instr: u16, s: State)
    requires
        s.well_formed(),
    ensures
        execute(op, instr, s).0.well_formed(),
{
}

/// After an operation that sets the flags, the condition register holds the
/// bit of exactly one flag, the one that describes the sign of the word now
/// in the destination register.
pub proof fn lemma_flags_describe_result(op: OpCode, instr: u16, s: State)
    requires
        s.well_formed(),
        op.sets_flags(),
    ensures
        ({
            let next = execute(op, instr, s).0;
            let result = next.reg[spec_dest_register(instr) as int];
            let condition = next.reg[R_COND as int];
            &&& is_flag(condition)
            &&& condition == ConditionFlag::spec_of(result).spec_bits()
            &&& condition == ConditionFlag::FlZro.spec_bits() <==> signed(result) == 0
            &&& condition == ConditionFlag::FlNeg.spec_bits() <==> signed(result) < 0
            &&& condition == ConditionFlag::FlPos.spec_bits() <==> signed(result) > 0
        }),
{
}

/// Once the condition register holds the bit of one flag, it does so after
/// every instruction.
pub proof fn lemma_one_flag_stays(op: OpCode, instr: u16, s: State)
    requires
        s.well_formed(),
        is_flag(s.reg[R_COND as int]),
    ensures
        is_flag(execute(op, instr, s).0.reg[R_COND as int]),
{
}

/// An operation that does not set the flags leaves the condition register
/// as it is.
pub proof fn lemma_flags_kept(op: OpCode, instr: u16, s: State)
    requires
        s.well_formed(),
        !op.sets_flags(),
    ensures
        execute(op, instr, s).0.reg[R_COND as int] == s.reg[R_COND as int],
{
}

/// Addition and conjunction take their second operand from the instruction
/// in immediate mode and from a register otherwise, whatever the other bits
/// of the instruction are, and addition is modulo 2^16.
pub proof fn lemma_second_operand_modes(instr: u16, s: State)
    requires
        s.well_formed(),
    ensures
        ({
            let dr = spec_dest_register(instr) as int;
            let first = s.reg[spec_source_register(instr) as int];
            let second = if spec_immediate_mode(instr) {
                spec_imm5(instr)
            } else {
                s.reg[spec_second_register(instr) as int]
            };
            &&& execute(OpCode::OpAdd, instr, s).0.reg[dr] == (first + second) % 0x10000
            &&& execute(OpCode::OpAnd, instr, s).0.reg[dr] == first & second
        }),
{
}

/// Loading an effective address touches neither memory nor the console:
/// the destination register takes the address itself.
pub proof fn lemma_lea_reads_nothing(instr: u16, s: State)
    requires
        s.well_formed(),
    ensures
        ({
            let next = execute(OpCode::OpLea, instr, s).0;
            &&& next.memory == s.memory
            &&& next.console == s.console
            &&& next.reg[spec_dest_register(instr) as int] == displaced(
                s.pc(),
                spec_pc_offset9(instr),
            )
        }),
{
}

/// The two indirect operations treat the word at the address they compute
/// as a pointer. Where neither that address nor the pointer is the keyboard
/// data register, a load through the pointer gives the word that memory
/// holds at the pointer and changes no memory, and a store through it
/// changes the word at the pointer and no other.
pub proof fn lemma_double_indirection(instr: u16, s: State)
    requires
        s.well_formed(),
        !polls(displaced(s.pc(), spec_pc_offset9(instr)) as int),
        !polls(s.memory[displaced(s.pc(), spec_pc_offset9(instr)) as int] as int),
    ensures
        ({
            let dr = spec_dest_register(instr) as int;
            let pointer = s.memory[displaced(s.pc(), spec_pc_offset9(instr)) as int] as int;
            let loaded = execute(OpCode::OpLdi, instr, s).0;
            let stored = execute(OpCode::OpSti, instr, s).0;
            &&& loaded.reg[dr] == s.memory[pointer]
            &&& loaded.memory == s.memory
            &&& stored.memory == s.memory.update(pointer, s.reg[dr])
            &&& stored.reg == s.reg
        }),
{
}

/// A branch is taken exactly when the mask of the instruction asks for the
/// flag that the condition register holds. A mask may ask for several
/// flags.
pub proof fn lemma_branch_on_flag(instr: u16, s: State, flag: ConditionFlag)
    requires
        s.well_formed(),
        s.reg[R_COND as int] == flag.spec_bits(),
    ensures
        ({
            let mask = spec_dest_register(instr);
            let asked = match flag {
                ConditionFlag::FlPos => mask % 2 == 1,
                ConditionFlag::FlZro => mask / 2 % 2 == 1,
                ConditionFlag::FlNeg => mask / 4 % 2 == 1,
            };
            let next = execute(OpCode::OpBr, instr, s).0;
            &&& asked ==> next == s.with_reg(
                R_PC as int,
                displaced(s.pc(), spec_pc_offset9(instr)),
            )
            &&& !asked ==> next == s
        }),
{
    let mask = spec_dest_register(instr);
    assert(mask < 8 ==> {
        &&& (mask & 1 != 0 <==> mask % 2 == 1)
        &&& (mask & 2 != 0 <==> mask / 2 % 2 == 1)
        &&& (mask & 4 != 0 <==> mask / 4 % 2 == 1)
    }) by (bit_vector);
}

/// How an instruction can end. Only the halt trap halts. A fault comes from
/// one of the two unused operations, from a trap vector without a routine,
/// or from a string that a trap is to write and that reaches the end of
/// memory. Only the two traps that read block, and only while no character
/// is typed. Everything else goes on to the next instruction.
pub proof fn lemma_outcomes(op: OpCode, instr: u16, s: State)
    requires
        s.well_formed(),
    ensures
        ({
            let outcome = execute(op, instr, s).1;
            let routine = TrapCode::of_vector(spec_trap_vector(instr));
            let trap = op == OpCode::OpTrap;
            let unterminated = string_end(s.memory, s.reg[R_R0 as int] as int) == s.memory.len();
            &&& outcome == Outcome::Halt <==> trap && routine == TrapCode::TrapHalt
            &&& outcome == Outcome::Fault(Fault::ReservedOpcode) <==> op == OpCode::OpRti || op
                == OpCode::OpRes
            &&& outcome == Outcome::Fault(Fault::UnknownTrap) <==> trap && routine
                == TrapCode::TrapEmpty
            &&& outcome == Outcome::Fault(Fault::AddressOutOfRange) <==> trap && (routine
                == TrapCode::TrapPuts || routine == TrapCode::TrapPutSp) && unterminated
            &&& outcome == Outcome::Blocked <==> trap && (routine == TrapCode::TrapGetc || routine
                == TrapCode::TrapIn) && s.console.input.len() == 0
        }),
{
    lemma_string_end_is_first_zero(s.memory, s.reg[R_R0 as int] as int);
}

} // verus!
