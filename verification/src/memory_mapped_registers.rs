use crate::console::{Console, ConsoleView};
use crate::memory::MEMORY_SIZE;
use crate::outcome::Fault;
use vstd::prelude::*;

verus! {

/// The two addresses through which a program sees the keyboard.
#[derive(Debug, PartialEq, Eq, Clone, Copy, Structural)]
pub enum MemoryMappedRegister {
    /// Keyboard status: bit 15 is set while a character is ready.
    MrKbsr,
    /// Keyboard data: the last character read, in the low eight bits.
    MrKbdr,
}

/// The status word that says that a character is ready.
pub const KEY_READY: u16 = 0x8000;

impl MemoryMappedRegister {
    /// The address of this register.
    pub open spec fn spec_address(self) -> usize {
        match self {
            MemoryMappedRegister::MrKbsr => 0xFE00,
            MemoryMappedRegister::MrKbdr => 0xFE02,
        }
    }

    /// The address of this register.
    #[verifier::when_used_as_spec(spec_address)]
    pub fn address(self) -> (address: usize)
        ensures
            address == self.spec_address(),
    {
        match self {
            MemoryMappedRegister::MrKbsr => 0xFE00,
            MemoryMappedRegister::MrKbdr => 0xFE02,
        }
    }
}

/// Memory after the keyboard has been polled. With a character waiting in
/// `input`, the data register takes the oldest one and the status register
/// says ready; with none, the status register is cleared.
pub open spec fn polled(memory: Seq<u16>, input: Seq<u8>) -> Seq<u16> {
    if input.len() > 0 {
        memory.update(MemoryMappedRegister::MrKbsr.address() as int, KEY_READY).update(
            MemoryMappedRegister::MrKbdr.address() as int,
            input[0] as u16,
        )
    } else {
        memory.update(MemoryMappedRegister::MrKbsr.address() as int, 0)
    }
}

/// Whether a read of `address` polls the keyboard.
pub open spec fn polls(address: int) -> bool {
    address == MemoryMappedRegister::MrKbdr.address()
}

/// Memory after a read of `address`: unchanged, unless the read polls the
/// keyboard.
pub open spec fn memory_after_read(memory: Seq<u16>, input: Seq<u8>, address: int) -> Seq<u16> {
    if polls(address) {
        polled(memory, input)
    } else {
        memory
    }
}

/// The typed characters left after a read of `address`: a read that polls the
/// keyboard takes the oldest one.
pub open spec fn input_after_read(input: Seq<u8>, address: int) -> Seq<u8> {
    if polls(address) && input.len() > 0 {
        input.drop_first()
    } else {
        input
    }
}

/// Every address but that of the keyboard data register is plain storage: a
/// read gives the word that was written last, and changes neither memory nor
/// the typed characters.
pub proof fn lemma_plain_storage(memory: Seq<u16>, input: Seq<u8>, address: int, val: u16)
    requires
        0 <= address < memory.len(),
        !polls(address),
    ensures
        memory_after_read(memory.update(address, val), input, address)[address] == val,
        memory_after_read(memory, input, address) == memory,
        input_after_read(input, address) == input,
{
}

/// A poll changes the two keyboard registers and no other word. The status
/// register says whether a character was waiting, in bit 15 and with every
/// other bit clear; the data register holds that character, or what it held
/// before if there was none.
pub proof fn lemma_poll(memory: Seq<u16>, input: Seq<u8>, address: int)
    requires
        memory.len() == MEMORY_SIZE,
        0 <= address < MEMORY_SIZE,
    ensures
        polled(memory, input).len() == memory.len(),
        !polls(address) && address != MemoryMappedRegister::MrKbsr.spec_address() ==> polled(
            memory,
            input,
        )[address] == memory[address],
        polled(memory, input)[MemoryMappedRegister::MrKbsr.spec_address() as int] == if input.len()
            > 0 {
            KEY_READY
        } else {
            0
        },
        polled(memory, input)[MemoryMappedRegister::MrKbdr.spec_address() as int] == if input.len()
            > 0 {
            input[0] as u16
        } else {
            memory[MemoryMappedRegister::MrKbdr.spec_address() as int]
        },
{
}

/// Stores `val` at `address`. Every address is plain storage for a write.
pub fn mem_write(address: usize, val: u16, memory: &mut [u16; 65536])
    requires
        address < MEMORY_SIZE,
    ensures
        final(memory)@ == old(memory)@.update(address as int, val),
{
    memory[address] = val;
}

/// Reads the word at `address`. A read of the keyboard data register first
/// polls the keyboard, without waiting: see [`polled`]. A read of any other
/// address changes nothing.
pub fn mem_read(address: usize, memory: &mut [u16; 65536], console: &mut Console) -> (word: u16)
    requires
        address < MEMORY_SIZE,
    ensures
        final(memory)@ == memory_after_read(old(memory)@, old(console)@.input, address as int),
        final(console)@ == (ConsoleView {
            input: input_after_read(old(console)@.input, address as int),
            ..old(console)@
        }),
        word == final(memory)@[address as int],
{
    if address == MemoryMappedRegister::MrKbdr.address() {
        if console.input.len() > 0 {
            let key = console.input.remove(0);
            assert(console.input@ =~= old(console).input@.drop_first());
            memory[MemoryMappedRegister::MrKbsr.address()] = KEY_READY;
            memory[MemoryMappedRegister::MrKbdr.address()] = key as u16;
        } else {
            memory[MemoryMappedRegister::MrKbsr.address()] = 0;
        }
    }
    memory[address]
}

/// Stores `val` at `address`, if memory has a word there. An address past
/// the last word is a fault, and nothing is stored.
pub fn checked_write(address: usize, val: u16, memory: &mut [u16; 65536]) -> (result: Result<
    (),
    Fault,
>)
    ensures
        address < MEMORY_SIZE ==> {
            &&& final(memory)@ == old(memory)@.update(address as int, val)
            &&& result == Ok::<(), Fault>(())
        },
        address >= MEMORY_SIZE ==> {
            &&& final(memory)@ == old(memory)@
            &&& result == Err::<(), Fault>(Fault::AddressOutOfRange)
        },
{
    if address < MEMORY_SIZE {
        mem_write(address, val, memory);
        Ok(())
    } else {
        Err(Fault::AddressOutOfRange)
    }
}

/// Reads the word at `address` as [`mem_read`] does, if memory has a word
/// there. An address past the last word is a fault, and nothing changes.
pub fn checked_read(address: usize, memory: &mut [u16; 65536], console: &mut Console) -> (result:
    Result<u16, Fault>)
    ensures
        address < MEMORY_SIZE ==> {
            &&& final(memory)@ == memory_after_read(
                old(memory)@,
                old(console)@.input,
                address as int,
            )
            &&& final(console)@ == (ConsoleView {
                input: input_after_read(old(console)@.input, address as int),
                ..old(console)@
            })
            &&& result == Ok::<u16, Fault>(final(memory)@[address as int])
        },
        address >= MEMORY_SIZE ==> {
            &&& final(memory)@ == old(memory)@
            &&& final(console)@ == old(console)@
            &&& result == Err::<u16, Fault>(Fault::AddressOutOfRange)
        },
{
    if address < MEMORY_SIZE {
        Ok(mem_read(address, memory, console))
    } else {
        Err(Fault::AddressOutOfRange)
    }
}

} // verus!
