//! Words, their classification, the instruction set and its decoder.

use vstd::prelude::*;

verus! {

/// Number of distinct literal values: literals are the words below this bound,
/// and all arithmetic is carried out modulo it.
pub const MODULUS: u16 = 32768;

/// Number of registers.
pub const REGISTER_COUNT: u16 = 8;

/// What a word stands for when it is used as an operand.
#[derive(Debug, Clone, Copy, PartialEq, Eq, Structural)]
pub enum ParsedNumber {
    /// The word is the value itself.
    LiteralValue(u16),
    /// The word names the register with this index.
    Register(u16),
    /// The word is neither a literal nor a register.
    InvalidNumber,
}

/// The meaning of the word `w` as an operand: the words below 32768 are
/// literals, the next eight name the registers 0 to 7, and the rest are invalid.
pub open spec fn classify(w: u16) -> ParsedNumber {
    if w < MODULUS {
        ParsedNumber::LiteralValue(w)
    } else if w < MODULUS + REGISTER_COUNT {
        ParsedNumber::Register((w - MODULUS) as u16)
    } else {
        ParsedNumber::InvalidNumber
    }
}

impl ParsedNumber {
    /// Whether this is a literal.
    pub fn is_literal_value(&self) -> (b: bool)
        ensures
            b == (*self is LiteralValue),
    {
        match *self {
            ParsedNumber::LiteralValue(_) => true,
            _ => false,
        }
    }

    /// Whether this is the name of a register.
    pub fn is_register(&self) -> (b: bool)
        ensures
            b == (*self is Register),
    {
        match *self {
            ParsedNumber::Register(_) => true,
            _ => false,
        }
    }

    /// Whether this is neither a literal nor the name of a register.
    pub fn is_invalid_number(&self) -> (b: bool)
        ensures
            b == (*self is InvalidNumber),
    {
        match *self {
            ParsedNumber::InvalidNumber => true,
            _ => false,
        }
    }

    /// Whether this is a literal or the name of a register.
    pub fn is_valid_number(&self) -> (b: bool)
        ensures
            b == !(*self is InvalidNumber),
    {
        match *self {
            ParsedNumber::InvalidNumber => false,
            _ => true,
        }
    }
}

/// Classifies a word: what it stands for when it is used as an operand.
pub fn check_number(number: u16) -> (parsed: ParsedNumber)
    ensures
        parsed == classify(number),
{
    if number < MODULUS {
        ParsedNumber::LiteralValue(number)
    } else if number - MODULUS < REGISTER_COUNT {
        ParsedNumber::Register(number - MODULUS)
    } else {
        ParsedNumber::InvalidNumber
    }
}

/// Every word falls in exactly one class, and the class is decided by the two
/// thresholds 32768 and 32776: below the first the word is a literal that
/// stands for itself, from the first up to the second it names the register
/// `w - 32768`, and from the second on it is invalid.
pub proof fn lemma_classify_partition(w: u16)
    ensures
        (classify(w) is LiteralValue) <==> w < 32768,
        (classify(w) is Register) <==> 32768 <= w < 32776,
        (classify(w) is InvalidNumber) <==> 32776 <= w,
        classify(w) is LiteralValue ==> classify(w) == ParsedNumber::LiteralValue(w),
        classify(w) is Register ==> classify(w) == ParsedNumber::Register((w - 32768) as u16)
            && w - 32768 < 8,
        !(classify(w) is LiteralValue && classify(w) is Register),
        !(classify(w) is LiteralValue && classify(w) is InvalidNumber),
        !(classify(w) is Register && classify(w) is InvalidNumber),
        classify(w) is LiteralValue || classify(w) is Register || classify(w) is InvalidNumber,
{
}

/// Operands of `set`: copies a value into a register.
#[derive(Debug, Clone, Copy, PartialEq, Eq, Structural)]
pub struct SetRegister {
    /// Operand word: the register that is written.
    pub register: u16,
    /// Operand word: the value to store.
    pub value: u16,
}

/// Operands of `push`: puts a value on top of the stack.
#[derive(Debug, Clone, Copy, PartialEq, Eq, Structural)]
pub struct Push {
    /// Operand word: the value to push.
    pub value: u16,
}

/// Operands of `pop`: removes the top of the stack and stores it in a register.
#[derive(Debug, Clone, Copy, PartialEq, Eq, Structural)]
pub struct Pop {
    /// Operand word: the register that receives the popped word.
    pub value: u16,
}

/// Operands of `eq`: stores 1 in a register if two values are equal, else 0.
#[derive(Debug, Clone, Copy, PartialEq, Eq, Structural)]
pub struct IsEqual {
    /// Operand word: the register that is written.
    pub cell_result: u16,
    /// Operand word: the left value.
    pub first_operand: u16,
    /// Operand word: the right value.
    pub second_operand: u16,
}

/// Operands of `gt`: stores 1 in a register if the first value is greater than the second, else 0.
#[derive(Debug, Clone, Copy, PartialEq, Eq, Structural)]
pub struct IsGreaterThan {
    /// Operand word: the register that is written.
    pub cell_result: u16,
    /// Operand word: the left value.
    pub first_operand: u16,
    /// Operand word: the right value.
    pub second_operand: u16,
}

/// Operands of `jmp`: continues at an address.
#[derive(Debug, Clone, Copy, PartialEq, Eq, Structural)]
pub struct Jump {
    /// Operand word: the address to continue at.
    pub value: u16,
}

/// Operands of `jt`: continues at an address if a value is not zero.
#[derive(Debug, Clone, Copy, PartialEq, Eq, Structural)]
pub struct JumpNotZero {
    /// Operand word: the value that is tested.
    pub value: u16,
    /// Operand word: the address to continue at.
    pub jump_location: u16,
}

/// Operands of `jf`: continues at an address if a value is zero.
#[derive(Debug, Clone, Copy, PartialEq, Eq, Structural)]
pub struct JumpZero {
    /// Operand word: the value that is tested.
    pub value: u16,
    /// Operand word: the address to continue at.
    pub jump_location: u16,
}

/// Operands of `add`: stores the sum of two values, modulo 32768, in a register.
#[derive(Debug, Clone, Copy, PartialEq, Eq, Structural)]
pub struct Add {
    /// Operand word: the register that is written.
    pub cell_result: u16,
    /// Operand word: the left value.
    pub first_operand: u16,
    /// Operand word: the right value.
    pub second_operand: u16,
}

/// Operands of `mult`: stores the product of two values, modulo 32768, in a register.
#[derive(Debug, Clone, Copy, PartialEq, Eq, Structural)]
pub struct Multiply {
    /// Operand word: the register that is written.
    pub cell_result: u16,
    /// Operand word: the left value.
    pub first_operand: u16,
    /// Operand word: the right value.
    pub second_operand: u16,
}

/// Operands of `mod`: stores the remainder of the first value divided by the second in a register.
#[derive(Debug, Clone, Copy, PartialEq, Eq, Structural)]
pub struct Modulo {
    /// Operand word: the register that is written.
    pub cell_result: u16,
    /// Operand word: the dividend.
    pub first_operand: u16,
    /// Operand word: the divisor.
    pub second_operand: u16,
}

/// Operands of `and`: stores the bitwise and of two values in a register.
#[derive(Debug, Clone, Copy, PartialEq, Eq, Structural)]
pub struct And {
    /// Operand word: the register that is written.
    pub cell_result: u16,
    /// Operand word: the left value.
    pub first_operand: u16,
    /// Operand word: the right value.
    pub second_operand: u16,
}

/// Operands of `or`: stores the bitwise or of two values in a register.
#[derive(Debug, Clone, Copy, PartialEq, Eq, Structural)]
pub struct Or {
    /// Operand word: the register that is written.
    pub cell_result: u16,
    /// Operand word: the left value.
    pub first_operand: u16,
    /// Operand word: the right value.
    pub second_operand: u16,
}

/// Operands of `not`: stores the 15-bit complement of a value in a register.
#[derive(Debug, Clone, Copy, PartialEq, Eq, Structural)]
pub struct Not {
    /// Operand word: the register that is written.
    pub cell_result: u16,
    /// Operand word: the value to complement.
    pub operand: u16,
}

/// Operands of `rmem`: loads the memory word at an address into a register.
#[derive(Debug, Clone, Copy, PartialEq, Eq, Structural)]
pub struct ReadMemory {
    /// Operand word: the address to read.
    pub memory_address_to_read: u16,
    /// Operand word: the register that is written.
    pub cell_result: u16,
}

/// Operands of `wmem`: stores a value in the memory word at an address.
#[derive(Debug, Clone, Copy, PartialEq, Eq, Structural)]
pub struct WriteMemory {
    /// Operand word: the value to store.
    pub value: u16,
    /// Operand word: the address to write.
    pub memory_address_to_write_to: u16,
}

/// Operands of `call`: pushes the address of the next instruction and continues at an address.
#[derive(Debug, Clone, Copy, PartialEq, Eq, Structural)]
pub struct Call {
    /// Operand word: the address to continue at.
    pub value: u16,
}

/// Operands of `out`: writes a value as one byte of output.
#[derive(Debug, Clone, Copy, PartialEq, Eq, Structural)]
pub struct Out {
    /// Operand word: the value to write.
    pub value: u16,
}

/// Operands of `in`: reads one byte of input into a register.
#[derive(Debug, Clone, Copy, PartialEq, Eq, Structural)]
pub struct In {
    /// Operand word: the register that receives the byte.
    pub value: u16,
}

/// A decoded instruction: one variant for each operation of the machine.
#[derive(Debug, Clone, Copy, PartialEq, Eq, Structural)]
pub enum OpCode {
    Halt,
    SetRegister(SetRegister),
    Push(Push),
    Pop(Pop),
    IsEqual(IsEqual),
    IsGreaterThan(IsGreaterThan),
    Jump(Jump),
    JumpNotZero(JumpNotZero),
    JumpZero(JumpZero),
    Add(Add),
    Multiply(Multiply),
    Modulo(Modulo),
    And(And),
    Or(Or),
    Not(Not),
    ReadMemory(ReadMemory),
    WriteMemory(WriteMemory),
    Call(Call),
    Return,
    In(In),
    Out(Out),
    Noop,
}

/// Why a word sequence could not be decoded as an instruction.
#[derive(Debug, Clone, Copy, PartialEq, Eq, Structural)]
pub enum ReadOpCodeFailure {
    /// The operation word or one of its operand words lies beyond the end of memory.
    NotEnoughMemory,
    /// The operation word is not the code of an operation.
    InvalidOpCode,
    /// An operand word is of a class that its position does not accept.
    InvalidOperandValue,
}

/// The class of words that an operand position accepts.
pub enum OperandClass {
    /// The position takes the name of a register.
    Register,
    /// The position takes a literal or the name of a register.
    Value,
}

/// Whether a position of class `class` accepts the word `w`.
pub open spec fn admits(class: OperandClass, w: u16) -> bool {
    match class {
        OperandClass::Register => classify(w) is Register,
        OperandClass::Value => !(classify(w) is InvalidNumber),
    }
}

/// The number of operand words that follow the operation word `code`.
/// Words that are not the code of an operation have none.
pub open spec fn operand_count(code: u16) -> int {
    if code == 0 || code == 18 || code == 21 {
        0
    } else if code == 2 || code == 3 || code == 6 || code == 17 || code == 19 || code == 20 {
        1
    } else if code == 1 || code == 7 || code == 8 || code == 14 || code == 15 || code == 16 {
        2
    } else if 4 <= code <= 5 || 9 <= code <= 13 {
        3
    } else {
        0
    }
}

/// The class of the operand at `position` (counted from 0) of the operation
/// `code`. Operations that store a result name the register first; `pop`
/// names one too. Every other operand is a value. `in` takes a value as well:
/// whether it names a register is found out when the instruction runs.
pub open spec fn operand_class(code: u16, position: int) -> OperandClass {
    if position == 0 && (code == 1 || code == 3 || code == 4 || code == 5 || 9 <= code <= 15) {
        OperandClass::Register
    } else {
        OperandClass::Value
    }
}

/// Whether the operand words `a`, `b`, `c`, as many of them as the operation
/// `code` takes, are each of the class that their position accepts.
pub open spec fn operands_admitted(code: u16, a: u16, b: u16, c: u16) -> bool {
    &&& operand_count(code) > 0 ==> admits(operand_class(code, 0), a)
    &&& operand_count(code) > 1 ==> admits(operand_class(code, 1), b)
    &&& operand_count(code) > 2 ==> admits(operand_class(code, 2), c)
}

/// The instruction with operation word `code` and operand words `a`, `b`, `c`
/// in the order in which they follow the operation word. Operands beyond
/// those that the operation takes are ignored.
pub open spec fn assemble(code: u16, a: u16, b: u16, c: u16) -> OpCode {
    match code {
        0 => OpCode::Halt,
        1 => OpCode::SetRegister(SetRegister { register: a, value: b }),
        2 => OpCode::Push(Push { value: a }),
        3 => OpCode::Pop(Pop { value: a }),
        4 => OpCode::IsEqual(IsEqual { cell_result: a, first_operand: b, second_operand: c }),
        5 => OpCode::IsGreaterThan(
            IsGreaterThan { cell_result: a, first_operand: b, second_operand: c },
        ),
        6 => OpCode::Jump(Jump { value: a }),
        7 => OpCode::JumpNotZero(JumpNotZero { value: a, jump_location: b }),
        8 => OpCode::JumpZero(JumpZero { value: a, jump_location: b }),
        9 => OpCode::Add(Add { cell_result: a, first_operand: b, second_operand: c }),
        10 => OpCode::Multiply(Multiply { cell_result: a, first_operand: b, second_operand: c }),
        11 => OpCode::Modulo(Modulo { cell_result: a, first_operand: b, second_operand: c }),
        12 => OpCode::And(And { cell_result: a, first_operand: b, second_operand: c }),
        13 => OpCode::Or(Or { cell_result: a, first_operand: b, second_operand: c }),
        14 => OpCode::Not(Not { cell_result: a, operand: b }),
        15 => OpCode::ReadMemory(ReadMemory { cell_result: a, memory_address_to_read: b }),
        16 => OpCode::WriteMemory(WriteMemory { memory_address_to_write_to: a, value: b }),
        17 => OpCode::Call(Call { value: a }),
        18 => OpCode::Return,
        19 => OpCode::Out(Out { value: a }),
        20 => OpCode::In(In { value: a }),
        _ => OpCode::Noop,
    }
}

impl OpCode {
    /// The operation word of the instruction.
    pub open spec fn code(self) -> u16 {
        match self {
            OpCode::Halt => 0,
            OpCode::SetRegister(_) => 1,
            OpCode::Push(_) => 2,
            OpCode::Pop(_) => 3,
            OpCode::IsEqual(_) => 4,
            OpCode::IsGreaterThan(_) => 5,
            OpCode::Jump(_) => 6,
            OpCode::JumpNotZero(_) => 7,
            OpCode::JumpZero(_) => 8,
            OpCode::Add(_) => 9,
            OpCode::Multiply(_) => 10,
            OpCode::Modulo(_) => 11,
            OpCode::And(_) => 12,
            OpCode::Or(_) => 13,
            OpCode::Not(_) => 14,
            OpCode::ReadMemory(_) => 15,
            OpCode::WriteMemory(_) => 16,
            OpCode::Call(_) => 17,
            OpCode::Return => 18,
            OpCode::Out(_) => 19,
            OpCode::In(_) => 20,
            OpCode::Noop => 21,
        }
    }

    /// The number of memory words that the instruction occupies: the
    /// operation word and its operands.
    pub open spec fn width(self) -> int {
        1 + operand_count(self.code())
    }
}

/// The word of `mem` that lies `k` words after `pc`, if memory reaches that far.
pub open spec fn word_at(mem: Seq<u16>, pc: int, k: int) -> Option<u16> {
    if 0 <= pc + k < mem.len() {
        Some(mem[pc + k])
    } else {
        None
    }
}

/// Decoding of the operands of the operation `code` whose operation word is at
/// `pc`: all operand words must lie in memory, and then each must be of the
/// class that its position accepts.
pub open spec fn decode_operands(mem: Seq<u16>, pc: int, code: u16) -> Result<
    OpCode,
    ReadOpCodeFailure,
> {
    if pc < 0 || pc + operand_count(code) >= mem.len() {
        Err(ReadOpCodeFailure::NotEnoughMemory)
    } else if !operands_admitted(code, mem[pc + 1], mem[pc + 2], mem[pc + 3]) {
        Err(ReadOpCodeFailure::InvalidOperandValue)
    } else {
        Ok(assemble(code, mem[pc + 1], mem[pc + 2], mem[pc + 3]))
    }
}

/// Decoding of the instruction at word index `pc` of `mem`. The operation
/// word must lie in memory and be one of the codes 0 to 21; the operands are
/// then decoded by [`decode_operands`].
pub open spec fn decode(mem: Seq<u16>, pc: int) -> Result<OpCode, ReadOpCodeFailure> {
    if !(0 <= pc < mem.len()) {
        Err(ReadOpCodeFailure::NotEnoughMemory)
    } else if mem[pc] > 21 {
        Err(ReadOpCodeFailure::InvalidOpCode)
    } else {
        decode_operands(mem, pc, mem[pc])
    }
}

/// A decoded instruction lies wholly in memory, carries the operation word
/// found at `pc`, and is assembled from the words that follow it.
pub proof fn lemma_decode_ok(mem: Seq<u16>, pc: int)
    ensures
        decode(mem, pc) matches Ok(op) ==> {
            &&& 0 <= pc
            &&& pc + op.width() <= mem.len()
            &&& op.code() == mem[pc]
            &&& op.code() <= 21
            &&& op == assemble(mem[pc], mem[pc + 1], mem[pc + 2], mem[pc + 3])
            &&& operands_admitted(mem[pc], mem[pc + 1], mem[pc + 2], mem[pc + 3])
        },
{
}

/// The word at `index` of `mem`, if there is one.
fn read_word(mem: &[u16], index: usize) -> (word: Option<u16>)
    ensures
        word == word_at(mem@, index as int, 0),
{
    if index < mem.len() {
        Some(mem[index])
    } else {
        None
    }
}

/// Decodes the operands of the `set` whose operation word is at `offset`.
fn handle_set_register_case(mem: &[u16], offset: u16) -> (r: Result<OpCode, ReadOpCodeFailure>)
    ensures
        r == decode_operands(mem@, offset as int, 1),
{
    let register_result = read_word(mem, offset as usize + 1);
    let value_result = read_word(mem, offset as usize + 2);
    match (register_result, value_result) {
        (Some(register), Some(value)) => {
            if check_number(register).is_register() && check_number(value).is_valid_number() {
                Ok(OpCode::SetRegister(SetRegister { register, value }))
            } else {
                Err(ReadOpCodeFailure::InvalidOperandValue)
            }
        },
        _ => Err(ReadOpCodeFailure::NotEnoughMemory),
    }
}

/// Decodes the operands of the `push` whose operation word is at `offset`.
fn handle_push_case(mem: &[u16], offset: u16) -> (r: Result<OpCode, ReadOpCodeFailure>)
    ensures
        r == decode_operands(mem@, offset as int, 2),
{
    let value_result = read_word(mem, offset as usize + 1);
    match value_result {
        Some(value) => {
            if check_number(value).is_valid_number() {
                Ok(OpCode::Push(Push { value }))
            } else {
                Err(ReadOpCodeFailure::InvalidOperandValue)
            }
        },
        None => Err(ReadOpCodeFailure::NotEnoughMemory),
    }
}

/// Decodes the operands of the `pop` whose operation word is at `offset`.
fn handle_pop_case(mem: &[u16], offset: u16) -> (r: Result<OpCode, ReadOpCodeFailure>)
    ensures
        r == decode_operands(mem@, offset as int, 3),
{
    let value_result = read_word(mem, offset as usize + 1);
    match value_result {
        Some(value) => {
            if check_number(value).is_register() {
                Ok(OpCode::Pop(Pop { value }))
            } else {
                Err(ReadOpCodeFailure::InvalidOperandValue)
            }
        },
        None => Err(ReadOpCodeFailure::NotEnoughMemory),
    }
}

/// Decodes the operands of the `eq` whose operation word is at `offset`.
fn handle_is_equal_case(mem: &[u16], offset: u16) -> (r: Result<OpCode, ReadOpCodeFailure>)
    ensures
        r == decode_operands(mem@, offset as int, 4),
{
    let cell_result = read_word(mem, offset as usize + 1);
    let first_operand_result = read_word(mem, offset as usize + 2);
    let second_operand_result = read_word(mem, offset as usize + 3);
    match (cell_result, first_operand_result, second_operand_result) {
        (Some(cell), Some(first_operand), Some(second_operand)) => {
            if check_number(cell).is_register() && check_number(first_operand).is_valid_number()
                && check_number(second_operand).is_valid_number() {
                Ok(OpCode::IsEqual(IsEqual { cell_result: cell, first_operand, second_operand }))
            } else {
                Err(ReadOpCodeFailure::InvalidOperandValue)
            }
        },
        _ => Err(ReadOpCodeFailure::NotEnoughMemory),
    }
}

/// Decodes the operands of the `gt` whose operation word is at `offset`.
fn handle_is_greater_case(mem: &[u16], offset: u16) -> (r: Result<OpCode, ReadOpCodeFailure>)
    ensures
        r == decode_operands(mem@, offset as int, 5),
{
    let cell_result = read_word(mem, offset as usize + 1);
    let first_operand_result = read_word(mem, offset as usize + 2);
    let second_operand_result = read_word(mem, offset as usize + 3);
    match (cell_result, first_operand_result, second_operand_result) {
        (Some(cell), Some(first_operand), Some(second_operand)) => {
            if check_number(cell).is_register() && check_number(first_operand).is_valid_number()
                && check_number(second_operand).is_valid_number() {
                Ok(OpCode::IsGreaterThan(IsGreaterThan { cell_result: cell, first_operand, second_operand }))
            } else {
                Err(ReadOpCodeFailure::InvalidOperandValue)
            }
        },
        _ => Err(ReadOpCodeFailure::NotEnoughMemory),
    }
}

/// Decodes the operands of the `jmp` whose operation word is at `offset`.
fn handle_jump_case(mem: &[u16], offset: u16) -> (r: Result<OpCode, ReadOpCodeFailure>)
    ensures
        r == decode_operands(mem@, offset as int, 6),
{
    let value_result = read_word(mem, offset as usize + 1);
    match value_result {
        Some(value) => {
            if check_number(value).is_valid_number() {
                Ok(OpCode::Jump(Jump { value }))
            } else {
                Err(ReadOpCodeFailure::InvalidOperandValue)
            }
        },
        None => Err(ReadOpCodeFailure::NotEnoughMemory),
    }
}

/// Decodes the operands of the `jt` whose operation word is at `offset`.
fn handle_jump_not_zero_case(mem: &[u16], offset: u16) -> (r: Result<OpCode, ReadOpCodeFailure>)
    ensures
        r == decode_operands(mem@, offset as int, 7),
{
    let value_result = read_word(mem, offset as usize + 1);
    let jump_location_result = read_word(mem, offset as usize + 2);
    match (value_result, jump_location_result) {
        (Some(value), Some(jump_location)) => {
            if check_number(value).is_valid_number() && check_number(jump_location).is_valid_number() {
                Ok(OpCode::JumpNotZero(JumpNotZero { value, jump_location }))
            } else {
                Err(ReadOpCodeFailure::InvalidOperandValue)
            }
        },
        _ => Err(ReadOpCodeFailure::NotEnoughMemory),
    }
}

/// Decodes the operands of the `jf` whose operation word is at `offset`.
fn handle_jump_zero_case(mem: &[u16], offset: u16) -> (r: Result<OpCode, ReadOpCodeFailure>)
    ensures
        r == decode_operands(mem@, offset as int, 8),
{
    let value_result = read_word(mem, offset as usize + 1);
    let jump_location_result = read_word(mem, offset as usize + 2);
    match (value_result, jump_location_result) {
        (Some(value), Some(jump_location)) => {
            if check_number(value).is_valid_number() && check_number(jump_location).is_valid_number() {
                Ok(OpCode::JumpZero(JumpZero { value, jump_location }))
            } else {
                Err(ReadOpCodeFailure::InvalidOperandValue)
            }
        },
        _ => Err(ReadOpCodeFailure::NotEnoughMemory),
    }
}

/// Decodes the operands of the `add` whose operation word is at `offset`.
fn handle_add_case(mem: &[u16], offset: u16) -> (r: Result<OpCode, ReadOpCodeFailure>)
    ensures
        r == decode_operands(mem@, offset as int, 9),
{
    let cell_result = read_word(mem, offset as usize + 1);
    let first_operand_result = read_word(mem, offset as usize + 2);
    let second_operand_result = read_word(mem, offset as usize + 3);
    match (cell_result, first_operand_result, second_operand_result) {
        (Some(cell), Some(first_operand), Some(second_operand)) => {
            if check_number(cell).is_register() && check_number(first_operand).is_valid_number()
                && check_number(second_operand).is_valid_number() {
                Ok(OpCode::Add(Add { cell_result: cell, first_operand, second_operand }))
            } else {
                Err(ReadOpCodeFailure::InvalidOperandValue)
            }
        },
        _ => Err(ReadOpCodeFailure::NotEnoughMemory),
    }
}

/// Decodes the operands of the `mult` whose operation word is at `offset`.
fn handle_multiply_case(mem: &[u16], offset: u16) -> (r: Result<OpCode, ReadOpCodeFailure>)
    ensures
        r == decode_operands(mem@, offset as int, 10),
{
    let cell_result = read_word(mem, offset as usize + 1);
    let first_operand_result = read_word(mem, offset as usize + 2);
    let second_operand_result = read_word(mem, offset as usize + 3);
    match (cell_result, first_operand_result, second_operand_result) {
        (Some(cell), Some(first_operand), Some(second_operand)) => {
            if check_number(cell).is_register() && check_number(first_operand).is_valid_number()
                && check_number(second_operand).is_valid_number() {
                Ok(OpCode::Multiply(Multiply { cell_result: cell, first_operand, second_operand }))
            } else {
                Err(ReadOpCodeFailure::InvalidOperandValue)
            }
        },
        _ => Err(ReadOpCodeFailure::NotEnoughMemory),
    }
}

/// Decodes the operands of the `mod` whose operation word is at `offset`.
fn handle_modulo_case(mem: &[u16], offset: u16) -> (r: Result<OpCode, ReadOpCodeFailure>)
    ensures
        r == decode_operands(mem@, offset as int, 11),
{
    let cell_result = read_word(mem, offset as usize + 1);
    let first_operand_result = read_word(mem, offset as usize + 2);
    let second_operand_result = read_word(mem, offset as usize + 3);
    match (cell_result, first_operand_result, second_operand_result) {
        (Some(cell), Some(first_operand), Some(second_operand)) => {
            if check_number(cell).is_register() && check_number(first_operand).is_valid_number()
                && check_number(second_operand).is_valid_number() {
                Ok(OpCode::Modulo(Modulo { cell_result: cell, first_operand, second_operand }))
            } else {
                Err(ReadOpCodeFailure::InvalidOperandValue)
            }
        },
        _ => Err(ReadOpCodeFailure::NotEnoughMemory),
    }
}

/// Decodes the operands of the `and` whose operation word is at `offset`.
fn handle_and_case(mem: &[u16], offset: u16) -> (r: Result<OpCode, ReadOpCodeFailure>)
    ensures
        r == decode_operands(mem@, offset as int, 12),
{
    let cell_result = read_word(mem, offset as usize + 1);
    let first_operand_result = read_word(mem, offset as usize + 2);
    let second_operand_result = read_word(mem, offset as usize + 3);
    match (cell_result, first_operand_result, second_operand_result) {
        (Some(cell), Some(first_operand), Some(second_operand)) => {
            if check_number(cell).is_register() && check_number(first_operand).is_valid_number()
                && check_number(second_operand).is_valid_number() {
                Ok(OpCode::And(And { cell_result: cell, first_operand, second_operand }))
            } else {
                Err(ReadOpCodeFailure::InvalidOperandValue)
            }
        },
        _ => Err(ReadOpCodeFailure::NotEnoughMemory),
    }
}

/// Decodes the operands of the `or` whose operation word is at `offset`.
fn handle_or_case(mem: &[u16], offset: u16) -> (r: Result<OpCode, ReadOpCodeFailure>)
    ensures
        r == decode_operands(mem@, offset as int, 13),
{
    let cell_result = read_word(mem, offset as usize + 1);
    let first_operand_result = read_word(mem, offset as usize + 2);
    let second_operand_result = read_word(mem, offset as usize + 3);
    match (cell_result, first_operand_result, second_operand_result) {
        (Some(cell), Some(first_operand), Some(second_operand)) => {
            if check_number(cell).is_register() && check_number(first_operand).is_valid_number()
                && check_number(second_operand).is_valid_number() {
                Ok(OpCode::Or(Or { cell_result: cell, first_operand, second_operand }))
            } else {
                Err(ReadOpCodeFailure::InvalidOperandValue)
            }
        },
        _ => Err(ReadOpCodeFailure::NotEnoughMemory),
    }
}

/// Decodes the operands of the `not` whose operation word is at `offset`.
fn handle_not_case(mem: &[u16], offset: u16) -> (r: Result<OpCode, ReadOpCodeFailure>)
    ensures
        r == decode_operands(mem@, offset as int, 14),
{
    let cell_result = read_word(mem, offset as usize + 1);
    let operand_result = read_word(mem, offset as usize + 2);
    match (cell_result, operand_result) {
        (Some(cell), Some(operand)) => {
            if check_number(cell).is_register() && check_number(operand).is_valid_number() {
                Ok(OpCode::Not(Not { cell_result: cell, operand }))
            } else {
                Err(ReadOpCodeFailure::InvalidOperandValue)
            }
        },
        _ => Err(ReadOpCodeFailure::NotEnoughMemory),
    }
}

/// Decodes the operands of the `rmem` whose operation word is at `offset`.
fn handle_read_memory_case(mem: &[u16], offset: u16) -> (r: Result<OpCode, ReadOpCodeFailure>)
    ensures
        r == decode_operands(mem@, offset as int, 15),
{
    let cell_result = read_word(mem, offset as usize + 1);
    let memory_address_to_read_result = read_word(mem, offset as usize + 2);
    match (cell_result, memory_address_to_read_result) {
        (Some(cell), Some(memory_address_to_read)) => {
            if check_number(cell).is_register() && check_number(memory_address_to_read).is_valid_number() {
                Ok(OpCode::ReadMemory(ReadMemory { cell_result: cell, memory_address_to_read }))
            } else {
                Err(ReadOpCodeFailure::InvalidOperandValue)
            }
        },
        _ => Err(ReadOpCodeFailure::NotEnoughMemory),
    }
}

/// Decodes the operands of the `wmem` whose operation word is at `offset`.
fn handle_write_memory_case(mem: &[u16], offset: u16) -> (r: Result<OpCode, ReadOpCodeFailure>)
    ensures
        r == decode_operands(mem@, offset as int, 16),
{
    let memory_address_to_write_to_result = read_word(mem, offset as usize + 1);
    let value_result = read_word(mem, offset as usize + 2);
    match (memory_address_to_write_to_result, value_result) {
        (Some(memory_address_to_write_to), Some(value)) => {
            if check_number(memory_address_to_write_to).is_valid_number() && check_number(value).is_valid_number() {
                Ok(OpCode::WriteMemory(WriteMemory { memory_address_to_write_to, value }))
            } else {
                Err(ReadOpCodeFailure::InvalidOperandValue)
            }
        },
        _ => Err(ReadOpCodeFailure::NotEnoughMemory),
    }
}

/// Decodes the operands of the `call` whose operation word is at `offset`.
fn handle_call_case(mem: &[u16], offset: u16) -> (r: Result<OpCode, ReadOpCodeFailure>)
    ensures
        r == decode_operands(mem@, offset as int, 17),
{
    let value_result = read_word(mem, offset as usize + 1);
    match value_result {
        Some(value) => {
            if check_number(value).is_valid_number() {
                Ok(OpCode::Call(Call { value }))
            } else {
                Err(ReadOpCodeFailure::InvalidOperandValue)
            }
        },
        None => Err(ReadOpCodeFailure::NotEnoughMemory),
    }
}

/// Decodes the operands of the `out` whose operation word is at `offset`.
fn handle_out_case(mem: &[u16], offset: u16) -> (r: Result<OpCode, ReadOpCodeFailure>)
    ensures
        r == decode_operands(mem@, offset as int, 19),
{
    let value_result = read_word(mem, offset as usize + 1);
    match value_result {
        Some(value) => {
            if check_number(value).is_valid_number() {
                Ok(OpCode::Out(Out { value }))
            } else {
                Err(ReadOpCodeFailure::InvalidOperandValue)
            }
        },
        None => Err(ReadOpCodeFailure::NotEnoughMemory),
    }
}

/// Decodes the operands of the `in` whose operation word is at `offset`.
fn handle_in_case(mem: &[u16], offset: u16) -> (r: Result<OpCode, ReadOpCodeFailure>)
    ensures
        r == decode_operands(mem@, offset as int, 20),
{
    let value_result = read_word(mem, offset as usize + 1);
    match value_result {
        Some(value) => {
            if check_number(value).is_valid_number() {
                Ok(OpCode::In(In { value }))
            } else {
                Err(ReadOpCodeFailure::InvalidOperandValue)
            }
        },
        None => Err(ReadOpCodeFailure::NotEnoughMemory),
    }
}

/// Decodes the instruction whose operation word is at word index `offset` of
/// `mem`.
///
/// The operation word must lie in memory and be one of the codes 0 to 21.
/// The operand words that the operation takes must all lie in memory, and
/// each must be of the class that its position accepts: the name of a
/// register where a result is stored, a literal or a register elsewhere.
/// Memory is not changed, and neither is anything else.
pub fn read_memory_to_op_code(mem: &[u16], offset: u16) -> (r: Result<OpCode, ReadOpCodeFailure>)
    ensures
        r == decode(mem@, offset as int),
{
    let first_op_code = match read_word(mem, offset as usize) {
        Some(word) => word,
        None => {
            return Err(ReadOpCodeFailure::NotEnoughMemory);
        },
    };
    if !check_number(first_op_code).is_valid_number() {
        return Err(ReadOpCodeFailure::InvalidOpCode);
    }
    match first_op_code {
        0 => Ok(OpCode::Halt),
        1 => handle_set_register_case(mem, offset),
        2 => handle_push_case(mem, offset),
        3 => handle_pop_case(mem, offset),
        4 => handle_is_equal_case(mem, offset),
        5 => handle_is_greater_case(mem, offset),
        6 => handle_jump_case(mem, offset),
        7 => handle_jump_not_zero_case(mem, offset),
        8 => handle_jump_zero_case(mem, offset),
        9 => handle_add_case(mem, offset),
        10 => handle_multiply_case(mem, offset),
        11 => handle_modulo_case(mem, offset),
        12 => handle_and_case(mem, offset),
        13 => handle_or_case(mem, offset),
        14 => handle_not_case(mem, offset),
        15 => handle_read_memory_case(mem, offset),
        16 => handle_write_memory_case(mem, offset),
        17 => handle_call_case(mem, offset),
        18 => Ok(OpCode::Return),
        19 => handle_out_case(mem, offset),
        20 => handle_in_case(mem, offset),
        21 => Ok(OpCode::Noop),
        _ => Err(ReadOpCodeFailure::InvalidOpCode),
    }
}

} // verus!
