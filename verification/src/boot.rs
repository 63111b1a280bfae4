use crate::console::Console;
use crate::flags::is_flag;
use crate::memory_mapped_registers::{mem_read, polls};
use crate::ops::{
    execute, lemma_execute_keeps_shape, lemma_one_flag_stays, lemma_outcomes, OpCode,
};
use crate::outcome::{Fault, Outcome};
use crate::registers::{boot_registers, RegisterStorage, R_COND, R_PC};
use crate::state::{wrap16, State};
use crate::traps::halt_message;
use vstd::prelude::*;

verus! {

/// Where a run stands. `Halted` and `Faulted` are final: a machine in one of
/// them fetches nothing more.
#[derive(Debug, PartialEq, Eq, Clone, Copy, Structural)]
pub enum RunState {
    /// The next instruction can be fetched.
    Running,
    /// The halt trap ended the run.
    Halted,
    /// The run ended on an instruction that cannot be executed.
    Faulted(Fault),
}

impl RunState {
    /// The state of a running machine after an instruction with this
    /// outcome: only the halt trap halts it, only a fault faults it.
    pub open spec fn after(outcome: Outcome) -> RunState {
        match outcome {
            Outcome::Continue => RunState::Running,
            Outcome::Blocked => RunState::Running,
            Outcome::Halt => RunState::Halted,
            Outcome::Fault(fault) => RunState::Faulted(fault),
        }
    }

    /// What a machine in a final state answers when asked to go on.
    pub open spec fn answer(self) -> Outcome {
        match self {
            RunState::Running => Outcome::Continue,
            RunState::Halted => Outcome::Halt,
            RunState::Faulted(fault) => Outcome::Fault(fault),
        }
    }
}

/// The processor: the register file and the state of the run. Memory and
/// the console belong to the host, which lends them for every cycle.
pub struct Machine {
    pub registers: RegisterStorage,
    pub state: RunState,
}

/// What a run did before it stopped.
#[derive(Debug, PartialEq, Eq, Clone, Copy, Structural)]
pub struct Progress {
    /// The number of instructions that were executed to their end.
    pub cycles: u64,
    /// Whether the run stopped at an instruction that waits for a typed
    /// character.
    pub blocked: bool,
}

/// One cycle: the word at the program counter is fetched with the keyboard
/// poll of a read, the program counter is advanced by one, and the word is
/// decoded and executed. After an instruction that blocks, the program
/// counter points at that instruction again.
pub open spec fn cycle(s: State) -> (State, Outcome) {
    let pc = s.pc();
    let instr = s.word_at(pc as int);
    let fetched = s.after_read(pc as int).with_reg(R_PC as int, wrap16(pc + 1));
    let (next, outcome) = execute(OpCode::spec_decode(instr), instr, fetched);
    if outcome == Outcome::Blocked {
        (next.with_reg(R_PC as int, pc), outcome)
    } else {
        (next, outcome)
    }
}

/// A machine together with what the host lends it, and the count of a run,
/// as mathematical values.
pub struct Run {
    pub state: RunState,
    pub s: State,
    pub cycles: nat,
    pub blocked: bool,
}

/// A run of at most `budget` cycles. It stops before the first cycle that a
/// machine in a final state would make, after a cycle that blocks, which is
/// not counted, and when the budget is spent.
pub open spec fn run_for(state: RunState, s: State, budget: nat) -> Run
    decreases budget,
{
    if budget == 0 || state != RunState::Running {
        Run { state, s, cycles: 0, blocked: false }
    } else {
        let (next, outcome) = cycle(s);
        if outcome == Outcome::Blocked {
            Run { state, s: next, cycles: 0, blocked: true }
        } else {
            let rest = run_for(RunState::after(outcome), next, (budget - 1) as nat);
            Run { cycles: rest.cycles + 1, ..rest }
        }
    }
}

/// A machine in a final state makes no cycle, whatever the budget.
pub proof fn lemma_final_states_stay(state: RunState, s: State, budget: nat)
    requires
        state != RunState::Running,
    ensures
        run_for(state, s, budget) == (Run { state, s, cycles: 0, blocked: false }),
{
}

/// A run makes no more cycles than its budget, keeps the shape of the
/// machine, and does not report a final state as blocked.
pub proof fn lemma_run_within_budget(state: RunState, s: State, budget: nat)
    requires
        s.well_formed(),
    ensures
        run_for(state, s, budget).cycles <= budget,
        run_for(state, s, budget).s.well_formed(),
        run_for(state, s, budget).blocked ==> run_for(state, s, budget).state
            == RunState::Running,
    decreases budget,
{
    if budget > 0 && state == RunState::Running {
        let (next, outcome) = cycle(s);
        if outcome != Outcome::Blocked {
            lemma_run_within_budget(RunState::after(outcome), next, (budget - 1) as nat);
        }
    }
}

/// A run can be made in slices: a run that did not block goes on where it
/// stopped, and a run that blocked stops at the same point whatever budget
/// is left.
pub proof fn lemma_run_in_slices(state: RunState, s: State, first: nat, second: nat)
    ensures
        ({
            let head = run_for(state, s, first);
            let tail = run_for(head.state, head.s, second);
            run_for(state, s, first + second) == if head.blocked {
                head
            } else {
                Run { cycles: head.cycles + tail.cycles, ..tail }
            }
        }),
    decreases first,
{
    if first > 0 && state == RunState::Running {
        let (next, outcome) = cycle(s);
        if outcome != Outcome::Blocked {
            lemma_run_in_slices(RunState::after(outcome), next, (first - 1) as nat, second);
        }
    }
}

/// A cycle that blocked changes nothing when it is made again while no
/// character is typed: the machine waits.
pub proof fn lemma_blocked_machine_waits(s: State)
    requires
        s.well_formed(),
        cycle(s).1 == Outcome::Blocked,
    ensures
        cycle(cycle(s).0) == (cycle(s).0, Outcome::Blocked),
{
    let pc = s.pc();
    let instr = s.word_at(pc as int);
    let fetched = s.after_read(pc as int).with_reg(R_PC as int, wrap16(pc + 1));
    lemma_outcomes(OpCode::spec_decode(instr), instr, fetched);
    let waiting = cycle(s).0;
    assert(waiting.after_read(pc as int).memory =~= waiting.memory);
    assert(waiting.with_reg(R_PC as int, wrap16(pc + 1)).reg =~= execute(
        OpCode::spec_decode(instr),
        instr,
        fetched,
    ).0.reg);
}

/// Once the condition register holds the bit of one flag, it does so for
/// the rest of the run.
pub proof fn lemma_run_keeps_one_flag(state: RunState, s: State, budget: nat)
    requires
        s.well_formed(),
        is_flag(s.reg[R_COND as int]),
    ensures
        is_flag(run_for(state, s, budget).s.reg[R_COND as int]),
    decreases budget,
{
    if budget > 0 && state == RunState::Running {
        let pc = s.pc();
        let instr = s.word_at(pc as int);
        let fetched = s.after_read(pc as int).with_reg(R_PC as int, wrap16(pc + 1));
        lemma_one_flag_stays(OpCode::spec_decode(instr), instr, fetched);
        lemma_execute_keeps_shape(OpCode::spec_decode(instr), instr, fetched);
        let (next, outcome) = cycle(s);
        if outcome != Outcome::Blocked {
            lemma_run_keeps_one_flag(RunState::after(outcome), next, (budget - 1) as nat);
        }
    }
}

/// A program that is the halt trap alone stops after exactly one cycle, in
/// the halted state, having written the halt message.
pub proof fn lemma_halt_stops_after_one_cycle(s: State, budget: nat)
    requires
        s.well_formed(),
        budget >= 1,
        !polls(s.pc() as int),
        s.memory[s.pc() as int] == 0xF025,
    ensures
        run_for(RunState::Running, s, budget) == (Run {
            state: RunState::Halted,
            s: s.with_reg(R_PC as int, wrap16(s.pc() + 1)).with_console(
                s.console.write(halt_message()),
            ),
            cycles: 1,
            blocked: false,
        }),
{
    reveal_with_fuel(run_for, 2);
}

impl Machine {
    /// The processor at boot: running, with the register file of
    /// [`RegisterStorage::new`].
    pub fn new() -> (machine: Machine)
        ensures
            machine.state == RunState::Running,
            machine.registers.reg@ == boot_registers(),
    {
        Machine { registers: RegisterStorage::new(), state: RunState::Running }
    }

    /// Makes one cycle, if the machine is running: see [`cycle`]. A machine
    /// in a final state is left as it is, with memory and console, and
    /// answers with the outcome that ended its run.
    pub fn step(&mut self, memory: &mut [u16; 65536], console: &mut Console) -> (outcome: Outcome)
        ensures
            old(self).state == RunState::Running ==> {
                &&& (State {
                    memory: final(memory)@,
                    reg: final(self).registers.reg@,
                    console: final(console)@,
                }, outcome) == cycle(
                    State {
                        memory: old(memory)@,
                        reg: old(self).registers.reg@,
                        console: old(console)@,
                    },
                )
                &&& final(self).state == RunState::after(outcome)
            },
            old(self).state != RunState::Running ==> {
                &&& final(memory)@ == old(memory)@
                &&& final(self).registers.reg@ == old(self).registers.reg@
                &&& final(console)@ == old(console)@
                &&& final(self).state == old(self).state
                &&& outcome == old(self).state.answer()
            },
    {
        match self.state {
            RunState::Running => {
                let pc = self.registers.reg[R_PC];
                let instr = mem_read(pc as usize, memory, console);
                self.registers.reg[R_PC] = pc.wrapping_add(1);
                let outcome = OpCode::decode(instr).run(
                    memory,
                    &mut self.registers.reg,
                    instr,
                    console,
                );
                match outcome {
                    Outcome::Continue => {},
                    Outcome::Blocked => {
                        self.registers.reg[R_PC] = pc;
                    },
                    Outcome::Halt => {
                        self.state = RunState::Halted;
                    },
                    Outcome::Fault(fault) => {
                        self.state = RunState::Faulted(fault);
                    },
                }
                outcome
            },
            RunState::Halted => Outcome::Halt,
            RunState::Faulted(fault) => Outcome::Fault(fault),
        }
    }

    /// Runs the machine for at most `budget` cycles: see [`run_for`].
    pub fn resume(
        &mut self,
        memory: &mut [u16; 65536],
        console: &mut Console,
        budget: u64,
    ) -> (progress: Progress)
        ensures
            (Run {
                state: final(self).state,
                s: State {
                    memory: final(memory)@,
                    reg: final(self).registers.reg@,
                    console: final(console)@,
                },
                cycles: progress.cycles as nat,
                blocked: progress.blocked,
            }) == run_for(
                old(self).state,
                State {
                    memory: old(memory)@,
                    reg: old(self).registers.reg@,
                    console: old(console)@,
                },
                budget as nat,
            ),
    {
        let ghost goal = run_for(
            old(self).state,
            State { memory: old(memory)@, reg: old(self).registers.reg@, console: old(console)@ },
            budget as nat,
        );
        let mut cycles: u64 = 0;
        let mut blocked = false;
        while cycles < budget && !blocked && self.state == RunState::Running
            invariant
                cycles <= budget,
                blocked ==> self.state == RunState::Running,
                ({
                    let s = State {
                        memory: memory@,
                        reg: self.registers.reg@,
                        console: console@,
                    };
                    let rest = run_for(self.state, s, (budget - cycles) as nat);
                    goal == if blocked {
                        Run { state: self.state, s, cycles: cycles as nat, blocked }
                    } else {
                        Run { cycles: (rest.cycles + cycles) as nat, ..rest }
                    }
                }),
            decreases budget - cycles + if blocked { 0int } else { 1int },
        {
            let outcome = self.step(memory, console);
            if outcome == Outcome::Blocked {
                blocked = true;
            } else {
                cycles += 1;
            }
        }
        Progress { cycles, blocked }
    }
}

/// Boots a processor and runs it on `memory` for at most `budget` cycles.
/// The host has loaded the program before; execution starts at
/// [`crate::registers::PC_START`] with every other register zero.
pub fn bootstrap(memory: &mut [u16; 65536], console: &mut Console, budget: u64) -> (booted: (
    Machine,
    Progress,
))
    ensures
        (Run {
            state: booted.0.state,
            s: State {
                memory: final(memory)@,
                reg: booted.0.registers.reg@,
                console: final(console)@,
            },
            cycles: booted.1.cycles as nat,
            blocked: booted.1.blocked,
        }) == run_for(
            RunState::Running,
            State { memory: old(memory)@, reg: boot_registers(), console: old(console)@ },
            budget as nat,
        ),
{
    let mut machine = Machine::new();
    let progress = machine.resume(memory, console, budget);
    (machine, progress)
}

} // verus!
