use crate::flags::signed;
use vstd::arithmetic::power2::{lemma2_to64, pow2};
use vstd::prelude::*;

verus! {

/// The word that holds, in sixteen bits, the two's-complement number that
/// `field` holds as one of `span` values: the upper half of the values
/// stands for the negative numbers.
pub open spec fn widened(field: int, span: int) -> u16 {
    if field >= span / 2 {
        (field + 0x10000 - span) as u16
    } else {
        field as u16
    }
}

/// The word that holds, in sixteen bits, the two's-complement number that the
/// low `bit_count` bits of `x` hold: when the top bit of that field is set,
/// every higher bit is set too. A word whose field has a clear top bit is
/// left as it is.
pub open spec fn sign_extended(x: u16, bit_count: int) -> u16 {
    let span = pow2(bit_count as nat) as int;
    let field = x as int % span;
    if field >= span / 2 {
        widened(field, span)
    } else {
        x
    }
}

/// Widens the field in the low `bit_count` bits of `x` to sixteen bits,
/// keeping its sign.
pub fn sign_extend(x: u16, bit_count: i16) -> (extended: u16)
    requires
        1 <= bit_count <= 15,
    ensures
        extended == sign_extended(x, bit_count as int),
{
    let width: u16 = bit_count as u16;
    let ghost span: u16 = pow2(width as nat) as u16;
    proof {
        lemma2_to64();
        assert(span == 1u16 << width) by {
            vstd::bits::lemma_u16_pow2_no_overflow(width as nat);
            vstd::bits::lemma_u16_shl_is_mul(1, width);
        }
        assert({
            &&& ((x >> ((width - 1) as u16)) & 1 == 1) <==> (x % span >= span / 2)
            &&& (x >> ((width - 1) as u16)) & 1 == 1 ==> (x | (0xFFFFu16 << width)) as int == (x
                % span) + 0x10000 - span
        }) by (bit_vector)
            requires
                1 <= width <= 15,
                span == 1u16 << width,
        ;
    }
    let negative = (x >> (width - 1)) & 1 == 1;
    if negative {
        x | (0xFFFF << width)
    } else {
        x
    }
}

/// Whether the top bit of the field in the low `bit_count` bits of `x` is
/// set: bit `bit_count - 1` of `x`.
pub open spec fn top_bit_set(x: u16, bit_count: int) -> bool {
    x as int / (pow2((bit_count - 1) as nat) as int) % 2 == 1
}

/// Sign extension keeps the number that the field holds in two's
/// complement. A field whose top bit is set holds its unsigned value less
/// 2^`bit_count`, and so does the extended word; a word whose field has a
/// clear top bit comes back unchanged.
pub proof fn lemma_sign_extension(x: u16, bit_count: int)
    requires
        1 <= bit_count <= 15,
    ensures
        top_bit_set(x, bit_count) ==> signed(sign_extended(x, bit_count)) == x as int % (pow2(
            bit_count as nat,
        ) as int) - pow2(bit_count as nat),
        !top_bit_set(x, bit_count) ==> sign_extended(x, bit_count) == x,
{
    lemma2_to64();
    let low = pow2((bit_count - 1) as nat) as int;
    let span = pow2(bit_count as nat) as int;
    assert(span == 2 * low && 1 <= low <= 0x4000) by {
        vstd::arithmetic::power2::lemma_pow2_unfold(bit_count as nat);
        vstd::arithmetic::power2::lemma_pow2_strictly_increases((bit_count - 1) as nat, 15);
        vstd::arithmetic::power2::lemma_pow2_pos((bit_count - 1) as nat);
    }
    let field = x as int % span;
    assert(x as int / low % 2 == 1 <==> field >= low) by {
        let b = x as int / low % 2;
        let q = x as int / low / 2;
        let r = x as int % low;
        let rest = if b == 1 {
            low + r
        } else {
            r
        };
        vstd::arithmetic::div_mod::lemma_fundamental_div_mod(x as int, low);
        vstd::arithmetic::div_mod::lemma_fundamental_div_mod(x as int / low, 2);
        vstd::arithmetic::div_mod::lemma_mod_bound(x as int, low);
        assert(x as int == q * span + rest) by (nonlinear_arith)
            requires
                span == 2 * low,
                x as int == low * (x as int / low) + r,
                x as int / low == 2 * q + b,
                rest == if b == 1 {
                    low + r
                } else {
                    r
                },
                b == 0 || b == 1,
        ;
        vstd::arithmetic::div_mod::lemma_fundamental_div_mod_converse(x as int, span, q, rest);
    }
}

/// Bits 11 to 9 of an instruction: the destination register, the register
/// to store, or the condition mask of a branch.
pub open spec fn spec_dest_register(instr: u16) -> u16 {
    (instr / 512 % 8) as u16
}

/// Bits 8 to 6 of an instruction: the first source register, or the base
/// register of an address.
pub open spec fn spec_source_register(instr: u16) -> u16 {
    (instr / 64 % 8) as u16
}

/// Bits 2 to 0 of an instruction: the second source register.
pub open spec fn spec_second_register(instr: u16) -> u16 {
    (instr % 8) as u16
}

/// Bit 5 of an instruction: whether the second operand is an immediate.
pub open spec fn spec_immediate_mode(instr: u16) -> bool {
    instr / 32 % 2 == 1
}

/// Bit 11 of an instruction: whether a subroutine call gives its target as
/// an offset from the program counter.
pub open spec fn spec_long_mode(instr: u16) -> bool {
    instr / 2048 % 2 == 1
}

/// The low five bits of an instruction as a signed number: the immediate
/// operand.
pub open spec fn spec_imm5(instr: u16) -> u16 {
    widened(instr as int % 32, 32)
}

/// The low six bits of an instruction as a signed number: the offset from a
/// base register.
pub open spec fn spec_offset6(instr: u16) -> u16 {
    widened(instr as int % 64, 64)
}

/// The low nine bits of an instruction as a signed number: the offset from
/// the program counter.
pub open spec fn spec_pc_offset9(instr: u16) -> u16 {
    widened(instr as int % 512, 512)
}

/// The low eleven bits of an instruction as a signed number: the offset of
/// a subroutine call from the program counter.
pub open spec fn spec_pc_offset11(instr: u16) -> u16 {
    widened(instr as int % 2048, 2048)
}

/// The low eight bits of an instruction: the vector of a trap.
pub open spec fn spec_trap_vector(instr: u16) -> u16 {
    (instr % 256) as u16
}

/// Sign extension of a word that holds nothing above the field is
/// [`widened`].
pub proof fn lemma_masked_field(field: u16, bit_count: int)
    requires
        1 <= bit_count <= 15,
        field < pow2(bit_count as nat),
    ensures
        sign_extended(field, bit_count) == widened(field as int, pow2(bit_count as nat) as int),
{
    vstd::arithmetic::div_mod::lemma_small_mod(field as nat, pow2(bit_count as nat));
}

/// What the shifts and masks of the decoder compute.
proof fn lemma_fields(instr: u16)
    by (bit_vector)
    ensures
        (instr >> 9) & 0x7 == instr / 512 % 8,
        (instr >> 6) & 0x7 == instr / 64 % 8,
        instr & 0x7 == instr % 8,
        (instr >> 5) & 0x1 == instr / 32 % 2,
        (instr >> 11) & 0x1 == instr / 2048 % 2,
        instr & 0x1F == instr % 32,
        instr & 0x3F == instr % 64,
        instr & 0x1FF == instr % 512,
        instr & 0x7FF == instr % 2048,
        instr & 0xFF == instr % 256,
{
}

/// The destination register of an instruction.
#[verifier::when_used_as_spec(spec_dest_register)]
pub fn dest_register(instr: u16) -> (r: u16)
    ensures
        r == spec_dest_register(instr),
        r < 8,
{
    proof {
        lemma_fields(instr);
    }
    (instr >> 9) & 0x7
}

/// The first source register, or base register, of an instruction.
#[verifier::when_used_as_spec(spec_source_register)]
pub fn source_register(instr: u16) -> (r: u16)
    ensures
        r == spec_source_register(instr),
        r < 8,
{
    proof {
        lemma_fields(instr);
    }
    (instr >> 6) & 0x7
}

/// The second source register of an instruction.
#[verifier::when_used_as_spec(spec_second_register)]
pub fn second_register(instr: u16) -> (r: u16)
    ensures
        r == spec_second_register(instr),
        r < 8,
{
    proof {
        lemma_fields(instr);
    }
    instr & 0x7
}

/// Whether the second operand of an instruction is an immediate.
#[verifier::when_used_as_spec(spec_immediate_mode)]
pub fn immediate_mode(instr: u16) -> (flag: bool)
    ensures
        flag == spec_immediate_mode(instr),
{
    proof {
        lemma_fields(instr);
    }
    (instr >> 5) & 0x1 == 1
}

/// Whether a subroutine call gives its target as an offset.
#[verifier::when_used_as_spec(spec_long_mode)]
pub fn long_mode(instr: u16) -> (flag: bool)
    ensures
        flag == spec_long_mode(instr),
{
    proof {
        lemma_fields(instr);
    }
    (instr >> 11) & 0x1 == 1
}

/// The five-bit immediate operand of an instruction, sign-extended.
#[verifier::when_used_as_spec(spec_imm5)]
pub fn imm5(instr: u16) -> (value: u16)
    ensures
        value == spec_imm5(instr),
{
    proof {
        lemma_fields(instr);
        lemma2_to64();
        lemma_masked_field(instr & 0x1F, 5);
    }
    sign_extend(instr & 0x1F, 5)
}

/// The six-bit offset from a base register, sign-extended.
#[verifier::when_used_as_spec(spec_offset6)]
pub fn offset6(instr: u16) -> (value: u16)
    ensures
        value == spec_offset6(instr),
{
    proof {
        lemma_fields(instr);
        lemma2_to64();
        lemma_masked_field(instr & 0x3F, 6);
    }
    sign_extend(instr & 0x3F, 6)
}

/// The nine-bit offset from the program counter, sign-extended.
#[verifier::when_used_as_spec(spec_pc_offset9)]
pub fn pc_offset9(instr: u16) -> (value: u16)
    ensures
        value == spec_pc_offset9(instr),
{
    proof {
        lemma_fields(instr);
        lemma2_to64();
        lemma_masked_field(instr & 0x1FF, 9);
    }
    sign_extend(instr & 0x1FF, 9)
}

/// The eleven-bit offset of a subroutine call, sign-extended.
#[verifier::when_used_as_spec(spec_pc_offset11)]
pub fn pc_offset11(instr: u16) -> (value: u16)
    ensures
        value == spec_pc_offset11(instr),
{
    proof {
        lemma_fields(instr);
        lemma2_to64();
        lemma_masked_field(instr & 0x7FF, 11);
    }
    sign_extend(instr & 0x7FF, 11)
}

/// The vector of a trap instruction.
#[verifier::when_used_as_spec(spec_trap_vector)]
pub fn trap_vector(instr: u16) -> (vector: u16)
    ensures
        vector == spec_trap_vector(instr),
{
    proof {
        lemma_fields(instr);
    }
    instr & 0xFF
}

} // verus!
