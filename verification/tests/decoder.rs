use lc3_vm::decoder::{
    dest_register, imm5, immediate_mode, long_mode, offset6, pc_offset11, pc_offset9,
    second_register, sign_extend, source_register, trap_vector,
};
use lc3_vm::flags::ConditionFlag;
use lc3_vm::ops::OpCode;
use lc3_vm::traps::TrapCode;

#[test]
fn sign_extend_keeps_a_positive_field() {
    assert_eq!(sign_extend(0x000F, 5), 0x000F);
    assert_eq!(sign_extend(0x001F, 6), 0x001F);
    assert_eq!(sign_extend(0x00FF, 9), 0x00FF);
    assert_eq!(sign_extend(0x03FF, 11), 0x03FF);
    assert_eq!(sign_extend(0, 5), 0);
}

#[test]
fn sign_extend_fills_the_upper_bits_of_a_negative_field() {
    assert_eq!(sign_extend(0x001F, 5), 0xFFFF);
    assert_eq!(sign_extend(0x0010, 5), 0xFFF0);
    assert_eq!(sign_extend(0x0020, 6), 0xFFE0);
    assert_eq!(sign_extend(0x0100, 9), 0xFF00);
    assert_eq!(sign_extend(0x01FF, 9), 0xFFFF);
    assert_eq!(sign_extend(0x0400, 11), 0xFC00);
    assert_eq!(sign_extend(0x07FE, 11), 0xFFFE);
}

#[test]
fn sign_extend_is_the_twos_complement_value_for_every_field() {
    for bit_count in [5i16, 6, 9, 11] {
        let span: i32 = 1 << bit_count;
        for raw in 0..span {
            let extended = sign_extend(raw as u16, bit_count) as i16 as i32;
            let expected = if raw >= span / 2 { raw - span } else { raw };
            assert_eq!(extended, expected);
        }
    }
}

#[test]
fn sign_extend_of_a_raw_word_goes_by_the_top_bit_of_the_field() {
    // Bits above the field are kept when the top bit is clear ...
    assert_eq!(sign_extend(0x1061, 5), 0x1061);
    // ... and all set when it is set.
    assert_eq!(sign_extend(0x1071, 5), 0xFFF1);
}

#[test]
fn sign_extend_at_the_narrowest_and_widest_field() {
    assert_eq!(sign_extend(1, 1), 0xFFFF);
    assert_eq!(sign_extend(0, 1), 0);
    assert_eq!(sign_extend(0x4000, 15), 0xC000);
    assert_eq!(sign_extend(0x3FFF, 15), 0x3FFF);
}

#[test]
fn register_fields_are_three_bits_each() {
    // 0001 011 101 0 00 110: ADD R3, R5, R6
    let instr = 0x1746;
    assert_eq!(dest_register(instr), 3);
    assert_eq!(source_register(instr), 5);
    assert_eq!(second_register(instr), 6);
    assert!(!immediate_mode(instr));
    assert_eq!(dest_register(0xFFFF), 7);
    assert_eq!(source_register(0xFFFF), 7);
    assert_eq!(second_register(0xFFFF), 7);
    assert_eq!(dest_register(0), 0);
}

#[test]
fn mode_bits_are_bit_five_and_bit_eleven() {
    assert!(immediate_mode(0x0020));
    assert!(!immediate_mode(0xFFDF));
    assert!(long_mode(0x0800));
    assert!(!long_mode(0xF7FF));
}

#[test]
fn offsets_are_masked_then_sign_extended() {
    assert_eq!(imm5(0x1061), 1);
    assert_eq!(imm5(0x14BF), 0xFFFF);
    assert_eq!(imm5(0xFFF0), 0xFFF0);
    assert_eq!(offset6(0x6045), 5);
    assert_eq!(offset6(0x607F), 0xFFFF);
    assert_eq!(offset6(0x6060), 0xFFE0);
    assert_eq!(pc_offset9(0x2005), 5);
    assert_eq!(pc_offset9(0x21FF), 0xFFFF);
    assert_eq!(pc_offset9(0xFF00), 0xFF00);
    assert_eq!(pc_offset11(0x4805), 5);
    assert_eq!(pc_offset11(0x4FFF), 0xFFFF);
    assert_eq!(pc_offset11(0x4C00), 0xFC00);
}

#[test]
fn trap_vector_is_the_low_byte() {
    assert_eq!(trap_vector(0xF025), 0x25);
    assert_eq!(trap_vector(0xFFFF), 0xFF);
    assert_eq!(trap_vector(0xF000), 0);
}

#[test]
fn every_code_decodes_to_its_operation() {
    let expected = [
        OpCode::OpBr,
        OpCode::OpAdd,
        OpCode::OpLd,
        OpCode::OpSt,
        OpCode::OpJsr,
        OpCode::OpAnd,
        OpCode::OpLdr,
        OpCode::OpStr,
        OpCode::OpRti,
        OpCode::OpNot,
        OpCode::OpLdi,
        OpCode::OpSti,
        OpCode::OpJmp,
        OpCode::OpRes,
        OpCode::OpLea,
        OpCode::OpTrap,
    ];
    for code in 0..16u16 {
        assert_eq!(OpCode::from(code), expected[code as usize]);
        assert_eq!(OpCode::decode(code << 12), expected[code as usize]);
        assert_eq!(OpCode::decode((code << 12) | 0x0FFF), expected[code as usize]);
    }
}

#[test]
fn a_code_past_the_last_is_the_trap_operation() {
    assert_eq!(OpCode::from(16), OpCode::OpTrap);
    assert_eq!(OpCode::from(0xFFFF), OpCode::OpTrap);
}

#[test]
fn trap_vectors_select_their_routines() {
    assert_eq!(TrapCode::from(0x20), TrapCode::TrapGetc);
    assert_eq!(TrapCode::from(0x21), TrapCode::TrapOut);
    assert_eq!(TrapCode::from(0x22), TrapCode::TrapPuts);
    assert_eq!(TrapCode::from(0x23), TrapCode::TrapIn);
    assert_eq!(TrapCode::from(0x24), TrapCode::TrapPutSp);
    assert_eq!(TrapCode::from(0x25), TrapCode::TrapHalt);
}

#[test]
fn any_other_vector_selects_no_routine() {
    assert_eq!(TrapCode::from(0x1F), TrapCode::TrapEmpty);
    assert_eq!(TrapCode::from(0x26), TrapCode::TrapEmpty);
    assert_eq!(TrapCode::from(0), TrapCode::TrapEmpty);
    assert_eq!(TrapCode::from(0xFF), TrapCode::TrapEmpty);
    assert_eq!(TrapCode::from(0x120), TrapCode::TrapEmpty);
}

#[test]
fn flags_have_one_bit_each() {
    assert_eq!(ConditionFlag::FlPos.bits(), 1);
    assert_eq!(ConditionFlag::FlZro.bits(), 2);
    assert_eq!(ConditionFlag::FlNeg.bits(), 4);
}

#[test]
fn a_flag_describes_the_sign_of_a_word() {
    assert_eq!(ConditionFlag::of(0), ConditionFlag::FlZro);
    assert_eq!(ConditionFlag::of(1), ConditionFlag::FlPos);
    assert_eq!(ConditionFlag::of(0x7FFF), ConditionFlag::FlPos);
    assert_eq!(ConditionFlag::of(0x8000), ConditionFlag::FlNeg);
    assert_eq!(ConditionFlag::of(0xFFFF), ConditionFlag::FlNeg);
}

#[test]
fn a_flag_comes_back_from_its_bit_and_from_no_other_word() {
    assert_eq!(ConditionFlag::from_bits(1), Some(ConditionFlag::FlPos));
    assert_eq!(ConditionFlag::from_bits(2), Some(ConditionFlag::FlZro));
    assert_eq!(ConditionFlag::from_bits(4), Some(ConditionFlag::FlNeg));
    assert_eq!(ConditionFlag::from_bits(0), None);
    assert_eq!(ConditionFlag::from_bits(3), None);
    assert_eq!(ConditionFlag::from_bits(8), None);
}
