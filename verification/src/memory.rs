use vstd::prelude::*;

verus! {

/// Number of words in memory: every 16-bit address names one.
pub const MEMORY_SIZE: usize = 65536;

/// The machine's memory.
pub struct MemoryStorage {
    pub memory: [u16; 65536],
}

impl MemoryStorage {
    /// A memory of zeros.
    pub fn new() -> (storage: MemoryStorage)
        ensures
            forall|i: int| 0 <= i < MEMORY_SIZE ==> storage.memory@[i] == 0,
    {
        MemoryStorage { memory: [0u16; 65536] }
    }
}

} // verus!
