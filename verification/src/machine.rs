//! The machine as a mathematical object: its state, and what each
//! instruction, each step and each line of input does to it.
//!
//! Nothing here is executable. The executable machine is
//! [`crate::vm::VM`]; its contracts are stated over the functions of this
//! module, and [`crate::laws`] proves what follows from them.

use crate::opcode::{classify, decode, OpCode, ParsedNumber};
use crate::vm::{HostAction, RunFailure};
use vstd::prelude::*;

verus! {

/// The state of a machine.
pub struct Machine {
    /// The words of memory, code and data alike.
    pub memory: Seq<u16>,
    /// The contents of the eight registers.
    pub registers: Seq<u16>,
    /// The stack, bottom first.
    pub stack: Seq<u16>,
    /// The word index of the next instruction.
    pub pc: u16,
    /// The input bytes that were read and not yet consumed, oldest first.
    pub pending_input: Seq<u8>,
    /// Whether the machine has stopped for good.
    pub halted: bool,
    /// How many instructions were taken up for execution.
    pub steps: u64,
}

/// A state together with what the caller is told: the action that the host
/// has to take, or the reason why the machine goes no further.
pub type Outcome = (Machine, Result<HostAction, RunFailure>);

/// Something that is done to a machine.
pub enum Event {
    /// A step: the instruction at the program counter is decoded and executed.
    Step,
    /// An instruction is executed as it is given.
    Instruction(OpCode),
    /// A line of input is fed.
    Line(Seq<u8>),
}

/// The sum of two words, modulo 32768.
pub open spec fn sum(x: u16, y: u16) -> u16 {
    ((x + y) % 32768) as u16
}

/// The product of two words, modulo 32768.
pub open spec fn product(x: u16, y: u16) -> u16 {
    ((x * y) % 32768) as u16
}

/// The complement of the low 15 bits of a word.
pub open spec fn complement(x: u16) -> u16 {
    !x & 0x7fff
}

/// The result of the two-operand operation `code` on the values `x` and `y`:
/// the comparisons `eq` and `gt` give 1 or 0, `add` and `mult` work modulo
/// 32768, `mod` has no result for a zero divisor, `and` and `or` work bit by
/// bit. Other codes have no result.
pub open spec fn compute(code: u16, x: u16, y: u16) -> Option<u16> {
    if code == 4 {
        Some(if x == y { 1u16 } else { 0u16 })
    } else if code == 5 {
        Some(if x > y { 1u16 } else { 0u16 })
    } else if code == 9 {
        Some(sum(x, y))
    } else if code == 10 {
        Some(product(x, y))
    } else if code == 11 {
        if y == 0 {
            None
        } else {
            Some(x % y)
        }
    } else if code == 12 {
        Some(x & y)
    } else if code == 13 {
        Some(x | y)
    } else {
        None
    }
}

/// Whether `b` is a byte that input keeps: at most 126 and not a carriage
/// return.
pub open spec fn is_input_byte(b: u8) -> bool {
    b <= 126 && b != 13
}

/// Whether every word of `words` is a literal.
pub open spec fn all_literals(words: Seq<u16>) -> bool {
    forall|i: int| 0 <= i < words.len() ==> words[i] < 32768
}

/// Whether input keeps every byte of `bytes`.
pub open spec fn all_input_bytes(bytes: Seq<u8>) -> bool {
    forall|i: int| 0 <= i < bytes.len() ==> is_input_byte(#[trigger] bytes[i])
}

/// The bytes of a line that reach the program, in their order.
pub open spec fn kept_bytes(line: Seq<u8>) -> Seq<u8> {
    line.filter(|b: u8| is_input_byte(b))
}

/// Whether the word `dump` stands in `line` at index `i`.
pub open spec fn dump_at(line: Seq<u8>, i: int) -> bool {
    &&& 0 <= i
    &&& i + 4 <= line.len()
    &&& line[i] == 100
    &&& line[i + 1] == 117
    &&& line[i + 2] == 109
    &&& line[i + 3] == 112
}

/// Whether the word `dump` occurs somewhere in `line`.
pub open spec fn mentions_dump(line: Seq<u8>) -> bool {
    exists|i: int| dump_at(line, i)
}

/// The counter `steps` after one more instruction; it stays at its largest value.
pub open spec fn counted(steps: u64) -> u64 {
    if steps < u64::MAX {
        (steps + 1) as u64
    } else {
        steps
    }
}

impl Machine {
    /// The state of a machine that was just loaded with `memory`.
    pub open spec fn initial(memory: Seq<u16>) -> Machine {
        Machine {
            memory,
            registers: Seq::new(8, |i: int| 0u16),
            stack: Seq::empty(),
            pc: 0,
            pending_input: Seq::empty(),
            halted: false,
            steps: 0,
        }
    }

    /// The invariant of the machine: there are eight registers, registers
    /// and stack hold literals only, and the pending input holds only bytes
    /// that input keeps.
    pub open spec fn wf(self) -> bool {
        &&& self.registers.len() == 8
        &&& all_literals(self.registers)
        &&& all_literals(self.stack)
        &&& all_input_bytes(self.pending_input)
    }

    /// The value that the operand word `w` stands for: a literal stands for
    /// itself, the name of a register for what the register holds, and an
    /// invalid word for nothing.
    pub open spec fn value_of(self, w: u16) -> Option<u16> {
        match classify(w) {
            ParsedNumber::LiteralValue(v) => Some(v),
            ParsedNumber::Register(r) => Some(self.registers[r as int]),
            ParsedNumber::InvalidNumber => None,
        }
    }

    /// The address `width` words after the program counter, if that address
    /// is a word: where the machine goes on after an instruction of that
    /// many words.
    pub open spec fn successor(self, width: int) -> Option<u16> {
        if 0 <= self.pc + width <= u16::MAX {
            Some((self.pc + width) as u16)
        } else {
            None
        }
    }

    /// The outcome of an instruction that cannot be carried out because of a
    /// value: the state stays as it is.
    pub open spec fn fault(self) -> Outcome {
        (self, Err(RunFailure::InvalidValue))
    }

    /// The state in which the machine goes on at `pc`.
    pub open spec fn at(self, pc: u16) -> Machine {
        Machine { pc, ..self }
    }

    /// The state after `value` was stored in the register that `target`
    /// names and the machine went on `width` words further. There is none if
    /// `target` names no register, if there is no value or it is no literal,
    /// or if the next address is no word.
    pub open spec fn stored(self, width: int, target: u16, value: Option<u16>) -> Option<Machine> {
        match (classify(target), value, self.successor(width)) {
            (ParsedNumber::Register(r), Some(v), Some(pc)) => if v < 32768 {
                Some(Machine { registers: self.registers.update(r as int, v), pc, ..self })
            } else {
                None
            },
            _ => None,
        }
    }

    /// Whether `next` is this state after the literal `value` was written
    /// to the register that `target` names and the machine went on `width`
    /// words further, with nothing else changed.
    pub open spec fn wrote(self, next: Machine, target: u16, value: int, width: int) -> bool {
        &&& classify(target) matches ParsedNumber::Register(k)
        &&& 0 <= value < 32768
        &&& 0 <= self.pc + width <= u16::MAX
        &&& next == Machine {
            registers: self.registers.update(k as int, value as u16),
            pc: (self.pc + width) as u16,
            ..self
        }
    }

    /// The outcome of an instruction of `width` words that only stores
    /// `value` in the register that `target` names.
    pub open spec fn store(self, width: int, target: u16, value: Option<u16>) -> Outcome {
        match self.stored(width, target, value) {
            Some(next) => (next, Ok(HostAction::Nothing)),
            None => self.fault(),
        }
    }

    /// The result of the two-operand operation `code` on the values of the
    /// operand words `first` and `second`.
    pub open spec fn combined(self, code: u16, first: u16, second: u16) -> Option<u16> {
        match (self.value_of(first), self.value_of(second)) {
            (Some(x), Some(y)) => compute(code, x, y),
            _ => None,
        }
    }

    /// The memory word at the address that the operand word `address`
    /// stands for, if that address lies in memory.
    pub open spec fn loaded(self, address: u16) -> Option<u16> {
        match self.value_of(address) {
            Some(a) => if a < self.memory.len() {
                Some(self.memory[a as int])
            } else {
                None
            },
            None => None,
        }
    }

    /// The outcome of going on at the address `target`, or `width` words
    /// further where there is no `target`.
    pub open spec fn go(self, width: int, target: Option<u16>) -> Outcome {
        match (target, self.successor(width)) {
            (Some(pc), _) => (self.at(pc), Ok(HostAction::Nothing)),
            (None, Some(pc)) => (self.at(pc), Ok(HostAction::Nothing)),
            (None, None) => self.fault(),
        }
    }

    /// The outcome of a conditional jump of `width` words. Both operands
    /// must be valid. The machine goes on at `location` if the value of
    /// `value` is zero and `on_zero` holds, or is not zero and `on_zero` does
    /// not hold; otherwise it goes on at the next instruction.
    pub open spec fn branch(self, width: int, value: u16, location: u16, on_zero: bool) -> Outcome {
        match (self.value_of(value), self.value_of(location)) {
            (Some(tested), Some(pc)) => if (tested == 0) == on_zero {
                self.go(width, Some(pc))
            } else {
                self.go(width, None)
            },
            _ => self.fault(),
        }
    }

    /// What the instruction `op` does to the machine.
    ///
    /// A halted machine does nothing and says `Halt`. Otherwise every operand
    /// is resolved by [`Machine::value_of`], and a register that is written
    /// receives a literal; where that cannot be done the instruction has no
    /// effect and the outcome is `InvalidValue`. The same holds where the
    /// address of the next instruction, or the return address of a call,
    /// would not be a word or a literal, where `mod` divides by zero, and
    /// where `rmem` or `wmem` address a word beyond the end of memory.
    /// Instructions that do not jump go on at the word after their last
    /// operand.
    pub open spec fn execute(self, op: OpCode) -> Outcome {
        if self.halted {
            (self, Err(RunFailure::Halt))
        } else {
            match op {
                OpCode::Halt => (Machine { halted: true, ..self }, Err(RunFailure::Halt)),
                OpCode::SetRegister(o) => self.store(op.width(), o.register, self.value_of(o.value)),
                OpCode::Push(o) => match (self.value_of(o.value), self.successor(op.width())) {
                    (Some(v), Some(pc)) => (
                        Machine { stack: self.stack.push(v), pc, ..self },
                        Ok(HostAction::Nothing),
                    ),
                    _ => self.fault(),
                },
                OpCode::Pop(o) => if self.stack.len() == 0 {
                    (self, Err(RunFailure::CannotPopStackIsEmpty))
                } else {
                    match self.stored(op.width(), o.value, Some(self.stack.last())) {
                        Some(next) => (
                            Machine { stack: self.stack.drop_last(), ..next },
                            Ok(HostAction::Nothing),
                        ),
                        None => self.fault(),
                    }
                },
                OpCode::IsEqual(o) => self.store(
                    op.width(),
                    o.cell_result,
                    self.combined(op.code(), o.first_operand, o.second_operand),
                ),
                OpCode::IsGreaterThan(o) => self.store(
                    op.width(),
                    o.cell_result,
                    self.combined(op.code(), o.first_operand, o.second_operand),
                ),
                OpCode::Jump(o) => match self.value_of(o.value) {
                    Some(pc) => self.go(op.width(), Some(pc)),
                    None => self.fault(),
                },
                OpCode::JumpNotZero(o) => self.branch(op.width(), o.value, o.jump_location, false),
                OpCode::JumpZero(o) => self.branch(op.width(), o.value, o.jump_location, true),
                OpCode::Add(o) => self.store(
                    op.width(),
                    o.cell_result,
                    self.combined(op.code(), o.first_operand, o.second_operand),
                ),
                OpCode::Multiply(o) => self.store(
                    op.width(),
                    o.cell_result,
                    self.combined(op.code(), o.first_operand, o.second_operand),
                ),
                OpCode::Modulo(o) => self.store(
                    op.width(),
                    o.cell_result,
                    self.combined(op.code(), o.first_operand, o.second_operand),
                ),
                OpCode::And(o) => self.store(
                    op.width(),
                    o.cell_result,
                    self.combined(op.code(), o.first_operand, o.second_operand),
                ),
                OpCode::Or(o) => self.store(
                    op.width(),
                    o.cell_result,
                    self.combined(op.code(), o.first_operand, o.second_operand),
                ),
                OpCode::Not(o) => self.store(
                    op.width(),
                    o.cell_result,
                    match self.value_of(o.operand) {
                        Some(x) => Some(complement(x)),
                        None => None,
                    },
                ),
                OpCode::ReadMemory(o) => self.store(
                    op.width(),
                    o.cell_result,
                    self.loaded(o.memory_address_to_read),
                ),
                OpCode::WriteMemory(o) => match (
                    self.value_of(o.memory_address_to_write_to),
                    self.value_of(o.value),
                    self.successor(op.width()),
                ) {
                    (Some(a), Some(v), Some(pc)) => if a < self.memory.len() {
                        (
                            Machine { memory: self.memory.update(a as int, v), pc, ..self },
                            Ok(HostAction::Nothing),
                        )
                    } else {
                        self.fault()
                    },
                    _ => self.fault(),
                },
                OpCode::Call(o) => match (self.value_of(o.value), self.successor(op.width())) {
                    (Some(pc), Some(back)) => if back < 32768 {
                        (
                            Machine { stack: self.stack.push(back), pc, ..self },
                            Ok(HostAction::Nothing),
                        )
                    } else {
                        self.fault()
                    },
                    _ => self.fault(),
                },
                OpCode::Return => if self.stack.len() == 0 {
                    (
                        Machine { halted: true, ..self },
                        Err(RunFailure::CannotReturnStackIsEmpty),
                    )
                } else {
                    (
                        Machine { stack: self.stack.drop_last(), pc: self.stack.last(), ..self },
                        Ok(HostAction::Nothing),
                    )
                },
                OpCode::Out(o) => match (self.value_of(o.value), self.successor(op.width())) {
                    (Some(v), Some(pc)) => (self.at(pc), Ok(HostAction::Write((v % 256) as u8))),
                    _ => self.fault(),
                },
                OpCode::In(o) => if self.pending_input.len() == 0 {
                    (self, Ok(HostAction::ReadLine))
                } else {
                    match self.stored(op.width(), o.value, Some(self.pending_input[0] as u16)) {
                        Some(next) => (
                            Machine { pending_input: self.pending_input.drop_first(), ..next },
                            Ok(HostAction::Nothing),
                        ),
                        None => self.fault(),
                    }
                },
                OpCode::Noop => self.go(op.width(), None),
            }
        }
    }

    /// What one step does to the machine.
    ///
    /// A halted machine says `Halt`. Otherwise the instruction at `pc` is
    /// decoded; a word sequence that is no instruction leaves the state as
    /// it is. The decoded instruction is executed and counted, unless it is
    /// an `in` that waits for a line.
    pub open spec fn step(self) -> Outcome {
        if self.halted {
            (self, Err(RunFailure::Halt))
        } else {
            match decode(self.memory, self.pc as int) {
                Err(e) => (self, Err(RunFailure::OpCodeParseFailure(e))),
                Ok(op) => {
                    let (next, result) = self.execute(op);
                    if result == Ok::<HostAction, RunFailure>(HostAction::ReadLine) {
                        (next, result)
                    } else {
                        (Machine { steps: counted(next.steps), ..next }, result)
                    }
                },
            }
        }
    }

    /// What a line of input does to the machine.
    ///
    /// A line that mentions `dump` asks the host for a dump and is not
    /// delivered. Of any other line the bytes that input keeps are appended
    /// to the pending input; a line of which nothing is kept means that the
    /// input has ended.
    pub open spec fn feed(self, line: Seq<u8>) -> Outcome {
        if mentions_dump(line) {
            (self, Ok(HostAction::Dump))
        } else if kept_bytes(line).len() == 0 {
            (self, Err(RunFailure::InvalidInput))
        } else {
            (
                Machine { pending_input: self.pending_input + kept_bytes(line), ..self },
                Ok(HostAction::Nothing),
            )
        }
    }

    /// What `event` does to the machine.
    pub open spec fn on(self, event: Event) -> Outcome {
        match event {
            Event::Step => self.step(),
            Event::Instruction(op) => self.execute(op),
            Event::Line(line) => self.feed(line),
        }
    }

    /// The state of the machine after `events`, one after the other.
    pub open spec fn after(self, events: Seq<Event>) -> Machine
        decreases events.len(),
    {
        if events.len() == 0 {
            self
        } else {
            self.after(events.drop_last()).on(events.last()).0
        }
    }
}

} // verus!
