use synacor_vm::opcode::{
    read_memory_to_op_code, Add, And, Call, In, IsEqual, IsGreaterThan, Jump, JumpNotZero,
    JumpZero, Modulo, Multiply, Not, OpCode, Or, Out, Pop, Push, ReadMemory, ReadOpCodeFailure,
    SetRegister, WriteMemory,
};

const R0: u16 = 32768;
const R1: u16 = 32769;
const R7: u16 = 32775;
const INVALID: u16 = 32776;

#[test]
fn decodes_the_operations_without_operands() {
    assert_eq!(read_memory_to_op_code(&[0], 0), Ok(OpCode::Halt));
    assert_eq!(read_memory_to_op_code(&[18], 0), Ok(OpCode::Return));
    assert_eq!(read_memory_to_op_code(&[21], 0), Ok(OpCode::Noop));
}

#[test]
fn decodes_the_operations_with_one_operand() {
    assert_eq!(read_memory_to_op_code(&[2, 5], 0), Ok(OpCode::Push(Push { value: 5 })));
    assert_eq!(read_memory_to_op_code(&[2, R1], 0), Ok(OpCode::Push(Push { value: R1 })));
    assert_eq!(read_memory_to_op_code(&[3, R7], 0), Ok(OpCode::Pop(Pop { value: R7 })));
    assert_eq!(read_memory_to_op_code(&[6, 100], 0), Ok(OpCode::Jump(Jump { value: 100 })));
    assert_eq!(read_memory_to_op_code(&[6, R0], 0), Ok(OpCode::Jump(Jump { value: R0 })));
    assert_eq!(read_memory_to_op_code(&[17, 9], 0), Ok(OpCode::Call(Call { value: 9 })));
    assert_eq!(read_memory_to_op_code(&[17, R1], 0), Ok(OpCode::Call(Call { value: R1 })));
    assert_eq!(read_memory_to_op_code(&[19, 72], 0), Ok(OpCode::Out(Out { value: 72 })));
    assert_eq!(read_memory_to_op_code(&[20, R0], 0), Ok(OpCode::In(In { value: R0 })));
}

#[test]
fn decodes_the_operations_with_two_operands() {
    assert_eq!(
        read_memory_to_op_code(&[1, R0, 3], 0),
        Ok(OpCode::SetRegister(SetRegister { register: R0, value: 3 }))
    );
    assert_eq!(
        read_memory_to_op_code(&[7, R0, 13], 0),
        Ok(OpCode::JumpNotZero(JumpNotZero { value: R0, jump_location: 13 }))
    );
    assert_eq!(
        read_memory_to_op_code(&[8, R0, 13], 0),
        Ok(OpCode::JumpZero(JumpZero { value: R0, jump_location: 13 }))
    );
    assert_eq!(
        read_memory_to_op_code(&[14, R0, 7], 0),
        Ok(OpCode::Not(Not { cell_result: R0, operand: 7 }))
    );
    assert_eq!(
        read_memory_to_op_code(&[15, R0, 10], 0),
        Ok(OpCode::ReadMemory(ReadMemory { cell_result: R0, memory_address_to_read: 10 }))
    );
    assert_eq!(
        read_memory_to_op_code(&[15, R0, R1], 0),
        Ok(OpCode::ReadMemory(ReadMemory { cell_result: R0, memory_address_to_read: R1 }))
    );
    assert_eq!(
        read_memory_to_op_code(&[16, 10, 123], 0),
        Ok(OpCode::WriteMemory(WriteMemory { memory_address_to_write_to: 10, value: 123 }))
    );
    assert_eq!(
        read_memory_to_op_code(&[16, R1, R0], 0),
        Ok(OpCode::WriteMemory(WriteMemory { memory_address_to_write_to: R1, value: R0 }))
    );
}

#[test]
fn decodes_the_operations_with_three_operands() {
    let mem = |code: u16| [code, R0, R1, 4];
    assert_eq!(
        read_memory_to_op_code(&mem(4), 0),
        Ok(OpCode::IsEqual(IsEqual { cell_result: R0, first_operand: R1, second_operand: 4 }))
    );
    assert_eq!(
        read_memory_to_op_code(&mem(5), 0),
        Ok(OpCode::IsGreaterThan(
            IsGreaterThan { cell_result: R0, first_operand: R1, second_operand: 4 }
        ))
    );
    assert_eq!(
        read_memory_to_op_code(&mem(9), 0),
        Ok(OpCode::Add(Add { cell_result: R0, first_operand: R1, second_operand: 4 }))
    );
    assert_eq!(
        read_memory_to_op_code(&mem(10), 0),
        Ok(OpCode::Multiply(Multiply { cell_result: R0, first_operand: R1, second_operand: 4 }))
    );
    assert_eq!(
        read_memory_to_op_code(&mem(11), 0),
        Ok(OpCode::Modulo(Modulo { cell_result: R0, first_operand: R1, second_operand: 4 }))
    );
    assert_eq!(
        read_memory_to_op_code(&mem(12), 0),
        Ok(OpCode::And(And { cell_result: R0, first_operand: R1, second_operand: 4 }))
    );
    assert_eq!(
        read_memory_to_op_code(&mem(13), 0),
        Ok(OpCode::Or(Or { cell_result: R0, first_operand: R1, second_operand: 4 }))
    );
}

#[test]
fn decodes_at_a_word_offset() {
    let mem = [21, 21, 9, R0, R1, 4, 19, R0, 0];
    assert_eq!(
        read_memory_to_op_code(&mem, 2),
        Ok(OpCode::Add(Add { cell_result: R0, first_operand: R1, second_operand: 4 }))
    );
    assert_eq!(read_memory_to_op_code(&mem, 6), Ok(OpCode::Out(Out { value: R0 })));
    assert_eq!(read_memory_to_op_code(&mem, 8), Ok(OpCode::Halt));
    // The operands of an instruction are words too and decode as what they hold:
    // the 4 at index 5 is the code of `eq`, and 19 names no register.
    assert_eq!(read_memory_to_op_code(&mem, 5), Err(ReadOpCodeFailure::InvalidOperandValue));
}

#[test]
fn an_operation_word_beyond_memory_is_not_enough_memory() {
    assert_eq!(read_memory_to_op_code(&[], 0), Err(ReadOpCodeFailure::NotEnoughMemory));
    assert_eq!(read_memory_to_op_code(&[0], 1), Err(ReadOpCodeFailure::NotEnoughMemory));
    assert_eq!(read_memory_to_op_code(&[0, 0], 65535), Err(ReadOpCodeFailure::NotEnoughMemory));
}

#[test]
fn a_missing_operand_is_not_enough_memory() {
    assert_eq!(read_memory_to_op_code(&[2], 0), Err(ReadOpCodeFailure::NotEnoughMemory));
    assert_eq!(read_memory_to_op_code(&[1, R0], 0), Err(ReadOpCodeFailure::NotEnoughMemory));
    assert_eq!(read_memory_to_op_code(&[9, R0, 1], 0), Err(ReadOpCodeFailure::NotEnoughMemory));
    assert_eq!(read_memory_to_op_code(&[0, 9, R0, 1], 1), Err(ReadOpCodeFailure::NotEnoughMemory));
}

#[test]
fn a_missing_operand_counts_before_a_wrong_one() {
    // The first operand of `set` is no register, and the second is missing.
    assert_eq!(read_memory_to_op_code(&[1, 5], 0), Err(ReadOpCodeFailure::NotEnoughMemory));
    assert_eq!(
        read_memory_to_op_code(&[9, INVALID, 1], 0),
        Err(ReadOpCodeFailure::NotEnoughMemory)
    );
}

#[test]
fn a_word_that_is_no_operation_is_an_invalid_op_code() {
    assert_eq!(read_memory_to_op_code(&[22], 0), Err(ReadOpCodeFailure::InvalidOpCode));
    assert_eq!(read_memory_to_op_code(&[32767], 0), Err(ReadOpCodeFailure::InvalidOpCode));
    assert_eq!(read_memory_to_op_code(&[R0], 0), Err(ReadOpCodeFailure::InvalidOpCode));
    assert_eq!(read_memory_to_op_code(&[INVALID], 0), Err(ReadOpCodeFailure::InvalidOpCode));
    assert_eq!(read_memory_to_op_code(&[65535], 0), Err(ReadOpCodeFailure::InvalidOpCode));
}

#[test]
fn a_result_needs_a_register() {
    assert_eq!(
        read_memory_to_op_code(&[1, 3, 3], 0),
        Err(ReadOpCodeFailure::InvalidOperandValue)
    );
    assert_eq!(read_memory_to_op_code(&[3, 3], 0), Err(ReadOpCodeFailure::InvalidOperandValue));
    assert_eq!(
        read_memory_to_op_code(&[14, 3, 3], 0),
        Err(ReadOpCodeFailure::InvalidOperandValue)
    );
    assert_eq!(
        read_memory_to_op_code(&[15, 3, 3], 0),
        Err(ReadOpCodeFailure::InvalidOperandValue)
    );
    for code in [4u16, 5, 9, 10, 11, 12, 13] {
        assert_eq!(
            read_memory_to_op_code(&[code, 3, 3, 3], 0),
            Err(ReadOpCodeFailure::InvalidOperandValue)
        );
        assert_eq!(
            read_memory_to_op_code(&[code, INVALID, 3, 3], 0),
            Err(ReadOpCodeFailure::InvalidOperandValue)
        );
    }
}

#[test]
fn a_value_must_not_be_an_invalid_word() {
    assert_eq!(
        read_memory_to_op_code(&[1, R0, INVALID], 0),
        Err(ReadOpCodeFailure::InvalidOperandValue)
    );
    for code in [2u16, 6, 17, 19, 20] {
        assert_eq!(
            read_memory_to_op_code(&[code, INVALID], 0),
            Err(ReadOpCodeFailure::InvalidOperandValue)
        );
    }
    for code in [7u16, 8, 16] {
        assert_eq!(
            read_memory_to_op_code(&[code, INVALID, 3], 0),
            Err(ReadOpCodeFailure::InvalidOperandValue)
        );
        assert_eq!(
            read_memory_to_op_code(&[code, 3, 65535], 0),
            Err(ReadOpCodeFailure::InvalidOperandValue)
        );
    }
    for code in [4u16, 5, 9, 10, 11, 12, 13] {
        assert_eq!(
            read_memory_to_op_code(&[code, R0, INVALID, 3], 0),
            Err(ReadOpCodeFailure::InvalidOperandValue)
        );
        assert_eq!(
            read_memory_to_op_code(&[code, R0, 3, INVALID], 0),
            Err(ReadOpCodeFailure::InvalidOperandValue)
        );
    }
    assert_eq!(
        read_memory_to_op_code(&[14, R0, INVALID], 0),
        Err(ReadOpCodeFailure::InvalidOperandValue)
    );
    assert_eq!(
        read_memory_to_op_code(&[15, R0, INVALID], 0),
        Err(ReadOpCodeFailure::InvalidOperandValue)
    );
}

#[test]
fn in_takes_a_literal_at_decoding() {
    assert_eq!(read_memory_to_op_code(&[20, 5], 0), Ok(OpCode::In(In { value: 5 })));
}

#[test]
fn jump_targets_are_taken_as_they_stand() {
    assert_eq!(read_memory_to_op_code(&[6, 7], 0), Ok(OpCode::Jump(Jump { value: 7 })));
    assert_eq!(
        read_memory_to_op_code(&[7, 1, 7], 0),
        Ok(OpCode::JumpNotZero(JumpNotZero { value: 1, jump_location: 7 }))
    );
}
