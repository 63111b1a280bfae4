use lc3_vm::console::Console;
use lc3_vm::memory::{MemoryStorage, MEMORY_SIZE};
use lc3_vm::memory_mapped_registers::{
    checked_read, checked_write, mem_read, mem_write, MemoryMappedRegister, KEY_READY,
};
use lc3_vm::outcome::Fault;
use lc3_vm::registers::{RegisterStorage, PC_START, R_COND, R_COUNT, R_PC};

const KBSR: usize = 0xFE00;
const KBDR: usize = 0xFE02;

fn blank() -> Box<[u16; 65536]> {
    Box::new([0u16; 65536])
}

#[test]
fn keyboard_registers_have_their_addresses() {
    assert_eq!(MemoryMappedRegister::MrKbsr.address(), KBSR);
    assert_eq!(MemoryMappedRegister::MrKbdr.address(), KBDR);
    assert_eq!(KEY_READY, 1 << 15);
}

#[test]
fn a_fresh_memory_is_zero_everywhere() {
    let storage = Box::new(MemoryStorage::new());
    assert_eq!(storage.memory.len(), MEMORY_SIZE);
    assert!(storage.memory.iter().all(|word| *word == 0));
}

#[test]
fn boot_registers_are_zero_but_the_program_counter() {
    let storage = RegisterStorage::new();
    assert_eq!(storage.reg.len(), R_COUNT);
    for r in 0..R_COUNT {
        if r == R_PC {
            assert_eq!(storage.reg[r], PC_START);
        } else {
            assert_eq!(storage.reg[r], 0);
        }
    }
    assert_eq!(PC_START, 0x3000);
    assert_eq!(storage.reg[R_COND], 0);
}

#[test]
fn a_write_changes_one_word() {
    let mut memory = blank();
    mem_write(0x3000, 0xABCD, &mut memory);
    assert_eq!(memory[0x3000], 0xABCD);
    assert_eq!(memory[0x2FFF], 0);
    assert_eq!(memory[0x3001], 0);
    assert_eq!(memory.iter().filter(|word| **word != 0).count(), 1);
}

#[test]
fn the_first_and_the_last_address_can_be_written_and_read() {
    let mut memory = blank();
    let mut console = Console::new();
    mem_write(0, 1, &mut memory);
    mem_write(0xFFFF, 2, &mut memory);
    assert_eq!(mem_read(0, &mut memory, &mut console), 1);
    assert_eq!(mem_read(0xFFFF, &mut memory, &mut console), 2);
}

#[test]
fn a_read_of_plain_storage_changes_nothing() {
    let mut memory = blank();
    let mut console = Console::new();
    console.input.push(b'x');
    mem_write(0x4000, 0x1234, &mut memory);
    let before = memory.clone();
    assert_eq!(mem_read(0x4000, &mut memory, &mut console), 0x1234);
    assert_eq!(*memory, *before);
    assert_eq!(console.input, vec![b'x']);
    assert!(console.output.is_empty());
}

#[test]
fn a_read_of_the_status_register_does_not_poll() {
    let mut memory = blank();
    let mut console = Console::new();
    console.input.push(b'x');
    assert_eq!(mem_read(KBSR, &mut memory, &mut console), 0);
    assert_eq!(console.input, vec![b'x']);
    assert_eq!(memory[KBDR], 0);
}

#[test]
fn a_read_of_the_data_register_latches_a_waiting_character() {
    let mut memory = blank();
    let mut console = Console::new();
    console.input.push(b'a');
    console.input.push(b'b');
    assert_eq!(mem_read(KBDR, &mut memory, &mut console), 0x61);
    assert_eq!(memory[KBSR], 0x8000);
    assert_eq!(memory[KBDR], 0x61);
    assert_eq!(console.input, vec![b'b']);
    assert_eq!(mem_read(KBDR, &mut memory, &mut console), 0x62);
    assert!(console.input.is_empty());
    assert_eq!(memory[KBSR], 0x8000);
}

#[test]
fn a_read_of_the_data_register_without_input_clears_the_status() {
    let mut memory = blank();
    let mut console = Console::new();
    console.input.push(b'a');
    assert_eq!(mem_read(KBDR, &mut memory, &mut console), 0x61);
    // Nothing is waiting now: the status is cleared and the old character stays.
    assert_eq!(mem_read(KBDR, &mut memory, &mut console), 0x61);
    assert_eq!(memory[KBSR], 0);
    assert_eq!(memory[KBDR], 0x61);
    assert!(console.input.is_empty());
}

#[test]
fn a_poll_leaves_the_rest_of_the_console_alone() {
    let mut memory = blank();
    let mut console = Console::new();
    console.input.push(0xFF);
    console.output.push(b'z');
    console.prompted = true;
    assert_eq!(mem_read(KBDR, &mut memory, &mut console), 0x00FF);
    assert_eq!(console.output, vec![b'z']);
    assert!(console.prompted);
}

#[test]
fn a_write_to_a_keyboard_register_is_plain_storage() {
    let mut memory = blank();
    let mut console = Console::new();
    mem_write(KBSR, 0x1111, &mut memory);
    mem_write(KBDR, 0x2222, &mut memory);
    assert_eq!(mem_read(KBSR, &mut memory, &mut console), 0x1111);
    // The read polls: nothing is typed, so only the status changes.
    assert_eq!(mem_read(KBDR, &mut memory, &mut console), 0x2222);
    assert_eq!(memory[KBSR], 0);
}

#[test]
fn a_new_console_is_empty() {
    let console = Console::new();
    assert!(console.input.is_empty());
    assert!(console.output.is_empty());
    assert!(!console.prompted);
}

#[test]
fn a_checked_write_stores_within_memory() {
    let mut memory = blank();
    assert_eq!(checked_write(0xFFFF, 0x0BAD, &mut memory), Ok(()));
    assert_eq!(memory[0xFFFF], 0x0BAD);
    assert_eq!(checked_write(0, 7, &mut memory), Ok(()));
    assert_eq!(memory[0], 7);
}

#[test]
fn a_checked_write_past_the_last_word_is_a_fault() {
    let mut memory = blank();
    assert_eq!(checked_write(0x10000, 1, &mut memory), Err(Fault::AddressOutOfRange));
    assert_eq!(checked_write(usize::MAX, 1, &mut memory), Err(Fault::AddressOutOfRange));
    assert!(memory.iter().all(|word| *word == 0));
}

#[test]
fn a_checked_read_reads_as_a_read_does() {
    let mut memory = blank();
    let mut console = Console::new();
    console.input.push(b'c');
    memory[0x1234] = 0x4321;
    assert_eq!(checked_read(0x1234, &mut memory, &mut console), Ok(0x4321));
    assert_eq!(console.input, vec![b'c']);
    assert_eq!(checked_read(KBDR, &mut memory, &mut console), Ok(0x63));
    assert_eq!(memory[KBSR], 0x8000);
    assert!(console.input.is_empty());
}

#[test]
fn a_checked_read_past_the_last_word_is_a_fault() {
    let mut memory = blank();
    let mut console = Console::new();
    console.input.push(b'c');
    assert_eq!(checked_read(0x10000, &mut memory, &mut console), Err(Fault::AddressOutOfRange));
    assert_eq!(console.input, vec![b'c']);
    assert!(memory.iter().all(|word| *word == 0));
}
