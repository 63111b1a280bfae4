use vstd::prelude::*;

verus! {

/// The three condition flags. Each has its own bit, so that a branch can ask
/// for several of them at once with a mask.
#[derive(Debug, PartialEq, Eq, Clone, Copy, Structural)]
pub enum ConditionFlag {
    FlPos,
    FlZro,
    FlNeg,
}

/// A word read as a two's-complement number.
pub open spec fn signed(word: u16) -> int {
    if word >= 0x8000 {
        word - 0x10000
    } else {
        word as int
    }
}

impl ConditionFlag {
    /// The bit that stands for this flag in the condition register.
    pub open spec fn spec_bits(self) -> u16 {
        match self {
            ConditionFlag::FlPos => 1,
            ConditionFlag::FlZro => 2,
            ConditionFlag::FlNeg => 4,
        }
    }

    /// The bit that stands for this flag in the condition register.
    #[verifier::when_used_as_spec(spec_bits)]
    pub fn bits(self) -> (bits: u16)
        ensures
            bits == self.spec_bits(),
    {
        match self {
            ConditionFlag::FlPos => 1,
            ConditionFlag::FlZro => 2,
            ConditionFlag::FlNeg => 4,
        }
    }

    /// The flag that describes the sign of `word`.
    pub open spec fn spec_of(word: u16) -> ConditionFlag {
        if word == 0 {
            ConditionFlag::FlZro
        } else if signed(word) < 0 {
            ConditionFlag::FlNeg
        } else {
            ConditionFlag::FlPos
        }
    }

    /// The flag that describes the sign of `word`: zero, negative when bit
    /// 15 is set, positive otherwise.
    #[verifier::when_used_as_spec(spec_of)]
    pub fn of(word: u16) -> (flag: ConditionFlag)
        ensures
            flag == Self::spec_of(word),
    {
        assert((word >> 15) == 1 <==> word >= 0x8000) by (bit_vector);
        if word == 0 {
            ConditionFlag::FlZro
        } else if (word >> 15) == 1 {
            ConditionFlag::FlNeg
        } else {
            ConditionFlag::FlPos
        }
    }

    /// The flag whose bit is `bits`, if `bits` is the bit of one flag.
    pub fn from_bits(bits: u16) -> (flag: Option<ConditionFlag>)
        ensures
            match flag {
                Some(f) => f.spec_bits() == bits,
                None => bits != 1 && bits != 2 && bits != 4,
            },
    {
        if bits == 1 {
            Some(ConditionFlag::FlPos)
        } else if bits == 2 {
            Some(ConditionFlag::FlZro)
        } else if bits == 4 {
            Some(ConditionFlag::FlNeg)
        } else {
            None
        }
    }
}

/// Whether `bits` is the bit of exactly one flag.
pub open spec fn is_flag(bits: u16) -> bool {
    bits == ConditionFlag::FlPos.spec_bits() || bits == ConditionFlag::FlZro.spec_bits() || bits
        == ConditionFlag::FlNeg.spec_bits()
}

/// Every word has exactly one sign: it is zero, or negative, or positive as a
/// two's-complement number, and its flag says which.
pub proof fn lemma_flag_matches_sign(word: u16)
    ensures
        ConditionFlag::spec_of(word) == ConditionFlag::FlZro <==> signed(word) == 0,
        ConditionFlag::spec_of(word) == ConditionFlag::FlNeg <==> signed(word) < 0,
        ConditionFlag::spec_of(word) == ConditionFlag::FlPos <==> signed(word) > 0,
{
}

} // verus!
