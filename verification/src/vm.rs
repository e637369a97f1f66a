//! The executable machine.

use crate::laws::lemma_execute_keeps_invariant;
use crate::machine::{
    all_input_bytes, all_literals, dump_at, is_input_byte, kept_bytes, mentions_dump, Machine,
};
use crate::opcode::{
    check_number, read_memory_to_op_code, Add, And, Call, In, IsEqual, IsGreaterThan, Jump,
    JumpNotZero, JumpZero, Modulo, Multiply, Not, OpCode, Or, Out, ParsedNumber, Pop, Push,
    ReadMemory, ReadOpCodeFailure, SetRegister, WriteMemory,
};
use std::collections::VecDeque;
use vstd::prelude::*;

verus! {

/// Why the machine goes no further.
#[derive(Debug, Clone, Copy, PartialEq, Eq, Structural)]
pub enum RunFailure {
    /// The program has halted. This is the regular end of a run.
    Halt,
    /// The words at the program counter are not an instruction.
    OpCodeParseFailure(ReadOpCodeFailure),
    /// An operand stands for no value, a register would receive a word that
    /// is no literal, a divisor is zero, or an address is out of range.
    InvalidValue,
    /// The input ended before a byte could be read.
    InvalidInput,
    /// `pop` found the stack empty.
    CannotPopStackIsEmpty,
    /// `ret` found the stack empty.
    CannotReturnStackIsEmpty,
}

/// What the host has to do before it calls the machine again.
#[derive(Debug, Clone, Copy, PartialEq, Eq, Structural)]
pub enum HostAction {
    /// Nothing.
    Nothing,
    /// Write this byte to the output.
    Write(u8),
    /// Read one line of input, line feed included, and hand it to
    /// [`VM::feed_line`].
    ReadLine,
    /// Dump the state of the machine.
    Dump,
}

/// A machine: memory, eight registers, a stack, a program counter and the
/// input that was read and not yet consumed.
pub struct VM {
    memory: Vec<u16>,
    register: [u16; 8],
    stack: Vec<u16>,
    program_counter: u16,
    pending_char: VecDeque<u8>,
    step_nb: u64,
    halted: bool,
}

impl View for VM {
    type V = Machine;

    closed spec fn view(&self) -> Machine {
        Machine {
            memory: self.memory@,
            registers: self.register@,
            stack: self.stack@,
            pc: self.program_counter,
            pending_input: self.pending_char@,
            halted: self.halted,
            steps: self.step_nb,
        }
    }
}

impl VM {
    #[verifier::type_invariant]
    spec fn well_formed(self) -> bool {
        self@.wf()
    }

    /// A machine loaded with `memory_`: all registers are zero, the stack
    /// and the pending input are empty, and execution starts at word 0.
    pub fn new(memory_: Vec<u16>) -> (vm: VM)
        ensures
            vm@ == Machine::initial(memory_@),
            vm@.wf(),
    {
        let vm = VM {
            memory: memory_,
            register: [0;8],
            stack: Vec::new(),
            program_counter: 0,
            pending_char: VecDeque::new(),
            step_nb: 0,
            halted: false,
        };
        assert(vm@.registers =~= Machine::initial(memory_@).registers);
        vm
    }

    /// The value that the operand word `number` stands for.
    fn get_literal_value_or_register_value(&self, number: u16) -> (r: Result<u16, RunFailure>)
        ensures
            match self@.value_of(number) {
                Some(v) => r == Ok::<u16, RunFailure>(v) && v < 32768,
                None => r == Err::<u16, RunFailure>(RunFailure::InvalidValue),
            },
    {
        proof {
            use_type_invariant(self);
        }
        match check_number(number) {
            ParsedNumber::InvalidNumber => Err(RunFailure::InvalidValue),
            ParsedNumber::LiteralValue(val) => Ok(val),
            ParsedNumber::Register(r) => Ok(self.register[r as usize]),
        }
    }

    /// The address `width` words after the program counter, if it is a word.
    fn next_address(&self, width: u16) -> (next: Option<u16>)
        ensures
            next == self@.successor(width as int),
    {
        if self.program_counter <= u16::MAX - width {
            Some(self.program_counter + width)
        } else {
            None
        }
    }

    /// Stores `value` in the register that `target` names and goes on
    /// `width` words further.
    fn store(&mut self, width: u16, target: u16, value: u16) -> (r: Result<HostAction, RunFailure>)
        ensures
            (final(self)@, r) == old(self)@.store(width as int, target, Some(value)),
    {
        proof {
            use_type_invariant(&*self);
        }
        match (check_number(target), self.next_address(width)) {
            (ParsedNumber::Register(r), Some(next)) => {
                if value < 32768 {
                    self.register[r as usize] = value;
                    self.program_counter = next;
                    Ok(HostAction::Nothing)
                } else {
                    Err(RunFailure::InvalidValue)
                }
            },
            _ => Err(RunFailure::InvalidValue),
        }
    }

    /// Goes on at `target`.
    fn go_to(&mut self, target: u16)
        ensures
            final(self)@ == old(self)@.at(target),
    {
        proof {
            use_type_invariant(&*self);
        }
        self.program_counter = target;
    }

    /// Goes on `width` words further.
    fn go_on(&mut self, width: u16) -> (r: Result<HostAction, RunFailure>)
        ensures
            (final(self)@, r) == old(self)@.go(width as int, None),
    {
        match self.next_address(width) {
            Some(next) => {
                self.go_to(next);
                Ok(HostAction::Nothing)
            },
            None => Err(RunFailure::InvalidValue),
        }
    }

    /// Puts `value` on top of the stack.
    ///
    /// The stack is taken out of the machine while it grows: the machine is
    /// then whole at every point at which the push may unwind.
    fn push_on_stack(&mut self, value: u16)
        requires
            value < 32768,
        ensures
            final(self)@ == (Machine { stack: old(self)@.stack.push(value), ..old(self)@ }),
    {
        proof {
            use_type_invariant(&*self);
        }
        let mut stack = Vec::new();
        core::mem::swap(&mut self.stack, &mut stack);
        stack.push(value);
        core::mem::swap(&mut self.stack, &mut stack);
    }

    /// Takes the top off the stack, if there is one.
    fn pop_off_stack(&mut self) -> (top: Option<u16>)
        ensures
            old(self)@.stack.len() == 0 ==> top.is_none() && final(self)@ == old(self)@,
            old(self)@.stack.len() > 0 ==> top == Some(old(self)@.stack.last()) && final(self)@ == (
            Machine { stack: old(self)@.stack.drop_last(), ..old(self)@ }),
    {
        proof {
            use_type_invariant(&*self);
        }
        let mut stack = Vec::new();
        core::mem::swap(&mut self.stack, &mut stack);
        let top = stack.pop();
        core::mem::swap(&mut self.stack, &mut stack);
        top
    }

    /// Drops the oldest byte of the pending input.
    fn drop_input_byte(&mut self)
        requires
            old(self)@.pending_input.len() > 0,
        ensures
            final(self)@ == (Machine {
                pending_input: old(self)@.pending_input.drop_first(),
                ..old(self)@
            }),
    {
        proof {
            use_type_invariant(&*self);
        }
        let mut pending = VecDeque::new();
        core::mem::swap(&mut self.pending_char, &mut pending);
        pending.pop_front();
        core::mem::swap(&mut self.pending_char, &mut pending);
    }

    // The instructions, one function each. Each does what
    // `Machine::execute` says of its instruction: a halted machine answers
    // `Halt`, and an instruction that cannot be carried out leaves the
    // machine as it is.

    /// Executes `set`: stores a value in a register.
    pub fn handle_set_register(&mut self, set_register: SetRegister) -> (r: Result<
        HostAction,
        RunFailure,
    >)
        ensures
            (final(self)@, r) == old(self)@.execute(OpCode::SetRegister(set_register)),
            final(self)@.wf(),
    {
        proof {
            use_type_invariant(&*self);
            lemma_execute_keeps_invariant(self@, OpCode::SetRegister(set_register));
        }
        if self.halted {
            return Err(RunFailure::Halt);
        }
        let value_to_set = self.get_literal_value_or_register_value(set_register.value)?;
        self.store(3, set_register.register, value_to_set)
    }

    /// Executes `push`: puts a value on top of the stack and goes on two words
    /// further.
    pub fn handle_push(&mut self, push: Push) -> (r: Result<HostAction, RunFailure>)
        ensures
            (final(self)@, r) == old(self)@.execute(OpCode::Push(push)),
            final(self)@.wf(),
            r is Ok ==> {
                &&& old(self)@.value_of(push.value) matches Some(v)
                &&& old(self)@.pc + 2 <= u16::MAX
                &&& final(self)@ == (Machine {
                    stack: old(self)@.stack.push(v),
                    pc: (old(self)@.pc + 2) as u16,
                    ..old(self)@
                })
            },
    {
        proof {
            use_type_invariant(&*self);
            lemma_execute_keeps_invariant(self@, OpCode::Push(push));
        }
        if self.halted {
            return Err(RunFailure::Halt);
        }
        let val = self.get_literal_value_or_register_value(push.value)?;
        match self.next_address(2) {
            Some(next) => {
                self.push_on_stack(val);
                self.go_to(next);
                Ok(HostAction::Nothing)
            },
            None => Err(RunFailure::InvalidValue),
        }
    }

    /// Executes `pop`: moves the top of the stack into a register and goes on two
    /// words further. The stack is looked at first: if it is empty, the
    /// operand does not matter.
    pub fn handle_pop(&mut self, pop: Pop) -> (r: Result<HostAction, RunFailure>)
        ensures
            (final(self)@, r) == old(self)@.execute(OpCode::Pop(pop)),
            final(self)@.wf(),
            r is Ok ==> {
                &&& old(self)@.stack.len() > 0
                &&& final(self)@.stack == old(self)@.stack.drop_last()
                &&& old(self)@.wrote(
                    Machine { stack: old(self)@.stack, ..final(self)@ },
                    pop.value,
                    old(self)@.stack.last() as int,
                    2,
                )
            },
    {
        proof {
            use_type_invariant(&*self);
            lemma_execute_keeps_invariant(self@, OpCode::Pop(pop));
        }
        if self.halted {
            return Err(RunFailure::Halt);
        }
        if self.stack.len() > 0 {
            let stack_value = self.stack[self.stack.len() - 1];
            self.store(2, pop.value, stack_value)?;
            self.pop_off_stack();
            Ok(HostAction::Nothing)
        } else {
            Err(RunFailure::CannotPopStackIsEmpty)
        }
    }

    /// Executes `eq`: stores 1 in a register if two values are equal, else 0.
    pub fn handle_is_equal(&mut self, is_equal: IsEqual) -> (r: Result<HostAction, RunFailure>)
        ensures
            (final(self)@, r) == old(self)@.execute(OpCode::IsEqual(is_equal)),
            final(self)@.wf(),
    {
        proof {
            use_type_invariant(&*self);
            lemma_execute_keeps_invariant(self@, OpCode::IsEqual(is_equal));
        }
        if self.halted {
            return Err(RunFailure::Halt);
        }
        let b = self.get_literal_value_or_register_value(is_equal.first_operand)?;
        let c = self.get_literal_value_or_register_value(is_equal.second_operand)?;
        self.store(4, is_equal.cell_result, if b == c { 1 } else { 0 })
    }

    /// Executes `gt`: stores 1 in a register if the first value is the greater, else 0.
    pub fn handle_greater_than(&mut self, is_greater_than: IsGreaterThan) -> (r: Result<
        HostAction,
        RunFailure,
    >)
        ensures
            (final(self)@, r) == old(self)@.execute(OpCode::IsGreaterThan(is_greater_than)),
            final(self)@.wf(),
    {
        proof {
            use_type_invariant(&*self);
            lemma_execute_keeps_invariant(self@, OpCode::IsGreaterThan(is_greater_than));
        }
        if self.halted {
            return Err(RunFailure::Halt);
        }
        let b = self.get_literal_value_or_register_value(is_greater_than.first_operand)?;
        let c = self.get_literal_value_or_register_value(is_greater_than.second_operand)?;
        self.store(4, is_greater_than.cell_result, if b > c { 1 } else { 0 })
    }

    /// Executes `jmp`: goes on at the value of the operand and changes nothing
    /// else.
    pub fn handle_jump(&mut self, jump: Jump) -> (r: Result<HostAction, RunFailure>)
        ensures
            (final(self)@, r) == old(self)@.execute(OpCode::Jump(jump)),
            final(self)@.wf(),
            r is Ok ==> {
                &&& old(self)@.value_of(jump.value) matches Some(target)
                &&& final(self)@ == old(self)@.at(target)
            },
    {
        proof {
            use_type_invariant(&*self);
            lemma_execute_keeps_invariant(self@, OpCode::Jump(jump));
        }
        if self.halted {
            return Err(RunFailure::Halt);
        }
        let target = self.get_literal_value_or_register_value(jump.value)?;
        self.go_to(target);
        Ok(HostAction::Nothing)
    }

    /// Executes `jt`: goes on at the value of the second operand if the value of
    /// the first is not zero, and three words further if it is zero.
    pub fn handle_jump_not_zero(&mut self, jump_not_zero: JumpNotZero) -> (r: Result<
        HostAction,
        RunFailure,
    >)
        ensures
            (final(self)@, r) == old(self)@.execute(OpCode::JumpNotZero(jump_not_zero)),
            final(self)@.wf(),
            r is Ok ==> {
                &&& old(self)@.value_of(jump_not_zero.value) matches Some(tested)
                &&& old(self)@.value_of(jump_not_zero.jump_location) matches Some(target)
                &&& tested != 0 ==> final(self)@ == old(self)@.at(target)
                &&& tested == 0 ==> final(self)@ == old(self)@.at((old(self)@.pc + 3) as u16)
                    && old(self)@.pc + 3 <= u16::MAX
            },
    {
        proof {
            use_type_invariant(&*self);
            lemma_execute_keeps_invariant(self@, OpCode::JumpNotZero(jump_not_zero));
        }
        if self.halted {
            return Err(RunFailure::Halt);
        }
        let actual_value = self.get_literal_value_or_register_value(jump_not_zero.value)?;
        let target = self.get_literal_value_or_register_value(jump_not_zero.jump_location)?;
        if actual_value == 0 {
            self.go_on(3)
        } else {
            self.go_to(target);
            Ok(HostAction::Nothing)
        }
    }

    /// Executes `jf`: goes on at the value of the second operand if the value of
    /// the first is zero, and three words further if it is not.
    pub fn handle_jump_zero(&mut self, jump_zero: JumpZero) -> (r: Result<HostAction, RunFailure>)
        ensures
            (final(self)@, r) == old(self)@.execute(OpCode::JumpZero(jump_zero)),
            final(self)@.wf(),
            r is Ok ==> {
                &&& old(self)@.value_of(jump_zero.value) matches Some(tested)
                &&& old(self)@.value_of(jump_zero.jump_location) matches Some(target)
                &&& tested == 0 ==> final(self)@ == old(self)@.at(target)
                &&& tested != 0 ==> final(self)@ == old(self)@.at((old(self)@.pc + 3) as u16)
                    && old(self)@.pc + 3 <= u16::MAX
            },
    {
        proof {
            use_type_invariant(&*self);
            lemma_execute_keeps_invariant(self@, OpCode::JumpZero(jump_zero));
        }
        if self.halted {
            return Err(RunFailure::Halt);
        }
        let actual_value = self.get_literal_value_or_register_value(jump_zero.value)?;
        let target = self.get_literal_value_or_register_value(jump_zero.jump_location)?;
        if actual_value != 0 {
            self.go_on(3)
        } else {
            self.go_to(target);
            Ok(HostAction::Nothing)
        }
    }

    /// Executes `add`: stores the sum of two values, modulo 32768, in a register and
    /// goes on four words further. Nothing else changes.
    pub fn handle_add(&mut self, add: Add) -> (r: Result<HostAction, RunFailure>)
        ensures
            (final(self)@, r) == old(self)@.execute(OpCode::Add(add)),
            final(self)@.wf(),
            r is Ok ==> {
                &&& old(self)@.value_of(add.first_operand) matches Some(b)
                &&& old(self)@.value_of(add.second_operand) matches Some(c)
                &&& old(self)@.wrote(final(self)@, add.cell_result, (b + c) % 32768, 4)
            },
    {
        proof {
            use_type_invariant(&*self);
            lemma_execute_keeps_invariant(self@, OpCode::Add(add));
        }
        if self.halted {
            return Err(RunFailure::Halt);
        }
        let b = self.get_literal_value_or_register_value(add.first_operand)?;
        let c = self.get_literal_value_or_register_value(add.second_operand)?;
        let result = ((b as u32 + c as u32) % 32768) as u16;
        self.store(4, add.cell_result, result)
    }

    /// Executes `mult`: stores the product of two values, modulo 32768, in a
    /// register and goes on four words further. Nothing else changes.
    pub fn handle_multiply(&mut self, multiply: Multiply) -> (r: Result<HostAction, RunFailure>)
        ensures
            (final(self)@, r) == old(self)@.execute(OpCode::Multiply(multiply)),
            final(self)@.wf(),
            r is Ok ==> {
                &&& old(self)@.value_of(multiply.first_operand) matches Some(b)
                &&& old(self)@.value_of(multiply.second_operand) matches Some(c)
                &&& old(self)@.wrote(final(self)@, multiply.cell_result, (b * c) % 32768, 4)
            },
    {
        proof {
            use_type_invariant(&*self);
            lemma_execute_keeps_invariant(self@, OpCode::Multiply(multiply));
        }
        if self.halted {
            return Err(RunFailure::Halt);
        }
        let b = self.get_literal_value_or_register_value(multiply.first_operand)?;
        let c = self.get_literal_value_or_register_value(multiply.second_operand)?;
        assert(b * c <= 32767 * 32767) by (nonlinear_arith)
            requires
                b <= 32767,
                c <= 32767,
        ;
        let result = ((b as u32 * c as u32) % 32768) as u16;
        self.store(4, multiply.cell_result, result)
    }

    /// Executes `mod`: stores a remainder in a register; there is none for a zero
    /// divisor.
    pub fn handle_modulo(&mut self, modulo: Modulo) -> (r: Result<HostAction, RunFailure>)
        ensures
            (final(self)@, r) == old(self)@.execute(OpCode::Modulo(modulo)),
            final(self)@.wf(),
    {
        proof {
            use_type_invariant(&*self);
            lemma_execute_keeps_invariant(self@, OpCode::Modulo(modulo));
        }
        if self.halted {
            return Err(RunFailure::Halt);
        }
        let b = self.get_literal_value_or_register_value(modulo.first_operand)?;
        let c = self.get_literal_value_or_register_value(modulo.second_operand)?;
        if c == 0 {
            return Err(RunFailure::InvalidValue);
        }
        self.store(4, modulo.cell_result, b % c)
    }

    /// Executes `and`: stores the bitwise and of two values in a register.
    pub fn handle_and(&mut self, and: And) -> (r: Result<HostAction, RunFailure>)
        ensures
            (final(self)@, r) == old(self)@.execute(OpCode::And(and)),
            final(self)@.wf(),
    {
        proof {
            use_type_invariant(&*self);
            lemma_execute_keeps_invariant(self@, OpCode::And(and));
        }
        if self.halted {
            return Err(RunFailure::Halt);
        }
        let b = self.get_literal_value_or_register_value(and.first_operand)?;
        let c = self.get_literal_value_or_register_value(and.second_operand)?;
        self.store(4, and.cell_result, b & c)
    }

    /// Executes `or`: stores the bitwise or of two values in a register.
    pub fn handle_or(&mut self, or: Or) -> (r: Result<HostAction, RunFailure>)
        ensures
            (final(self)@, r) == old(self)@.execute(OpCode::Or(or)),
            final(self)@.wf(),
    {
        proof {
            use_type_invariant(&*self);
            lemma_execute_keeps_invariant(self@, OpCode::Or(or));
        }
        if self.halted {
            return Err(RunFailure::Halt);
        }
        let b = self.get_literal_value_or_register_value(or.first_operand)?;
        let c = self.get_literal_value_or_register_value(or.second_operand)?;
        self.store(4, or.cell_result, b | c)
    }

    /// Executes `not`: stores the complement of the low 15 bits of a value, which is
    /// 32767 less the value, in a register and goes on three words further.
    pub fn handle_not(&mut self, not: Not) -> (r: Result<HostAction, RunFailure>)
        ensures
            (final(self)@, r) == old(self)@.execute(OpCode::Not(not)),
            final(self)@.wf(),
            r is Ok ==> {
                &&& old(self)@.value_of(not.operand) matches Some(a)
                &&& old(self)@.wrote(final(self)@, not.cell_result, 32767 - a, 3)
                &&& 32767 - a == !a & 0x7fff
            },
    {
        proof {
            use_type_invariant(&*self);
            lemma_execute_keeps_invariant(self@, OpCode::Not(not));
        }
        if self.halted {
            return Err(RunFailure::Halt);
        }
        let val = self.get_literal_value_or_register_value(not.operand)?;
        assert(!val & 0x7fff == 32767 - val) by (bit_vector)
            requires
                val < 32768,
        ;
        self.store(3, not.cell_result, !val & 0x7fff)
    }

    /// Executes `rmem`: loads a word of memory into a register. The word must lie
    /// in memory and be a literal.
    pub fn handle_read_memory(&mut self, read_memory: ReadMemory) -> (r: Result<
        HostAction,
        RunFailure,
    >)
        ensures
            (final(self)@, r) == old(self)@.execute(OpCode::ReadMemory(read_memory)),
            final(self)@.wf(),
    {
        proof {
            use_type_invariant(&*self);
            lemma_execute_keeps_invariant(self@, OpCode::ReadMemory(read_memory));
        }
        if self.halted {
            return Err(RunFailure::Halt);
        }
        let mem_address = self.get_literal_value_or_register_value(
            read_memory.memory_address_to_read,
        )?;
        if (mem_address as usize) < self.memory.len() {
            let value = self.memory[mem_address as usize];
            self.store(3, read_memory.cell_result, value)
        } else {
            Err(RunFailure::InvalidValue)
        }
    }

    /// Executes `wmem`: stores a value in a word of memory, which must exist.
    pub fn handle_write_memory(&mut self, write_memory: WriteMemory) -> (r: Result<
        HostAction,
        RunFailure,
    >)
        ensures
            (final(self)@, r) == old(self)@.execute(OpCode::WriteMemory(write_memory)),
            final(self)@.wf(),
    {
        proof {
            use_type_invariant(&*self);
            lemma_execute_keeps_invariant(self@, OpCode::WriteMemory(write_memory));
        }
        if self.halted {
            return Err(RunFailure::Halt);
        }
        let mem_address = self.get_literal_value_or_register_value(
            write_memory.memory_address_to_write_to,
        )?;
        let value_to_write = self.get_literal_value_or_register_value(write_memory.value)?;
        match self.next_address(3) {
            Some(next) => {
                if (mem_address as usize) < self.memory.len() {
                    self.memory[mem_address as usize] = value_to_write;
                    self.program_counter = next;
                    Ok(HostAction::Nothing)
                } else {
                    Err(RunFailure::InvalidValue)
                }
            },
            None => Err(RunFailure::InvalidValue),
        }
    }

    /// Executes `call`: pushes the address of the next instruction, which must be a
    /// literal, and goes on at the value of the operand.
    pub fn handle_call(&mut self, call: Call) -> (r: Result<HostAction, RunFailure>)
        ensures
            (final(self)@, r) == old(self)@.execute(OpCode::Call(call)),
            final(self)@.wf(),
            r is Ok ==> {
                &&& old(self)@.value_of(call.value) matches Some(target)
                &&& old(self)@.pc + 2 < 32768
                &&& final(self)@ == (Machine {
                    stack: old(self)@.stack.push((old(self)@.pc + 2) as u16),
                    pc: target,
                    ..old(self)@
                })
            },
    {
        proof {
            use_type_invariant(&*self);
            lemma_execute_keeps_invariant(self@, OpCode::Call(call));
        }
        if self.halted {
            return Err(RunFailure::Halt);
        }
        let target = self.get_literal_value_or_register_value(call.value)?;
        match self.next_address(2) {
            Some(back) => {
                if back < 32768 {
                    self.push_on_stack(back);
                    self.go_to(target);
                    Ok(HostAction::Nothing)
                } else {
                    Err(RunFailure::InvalidValue)
                }
            },
            None => Err(RunFailure::InvalidValue),
        }
    }

    /// Executes `ret`: takes the address on top of the stack off it and goes on
    /// there. On an empty stack the machine halts.
    pub fn handle_return(&mut self) -> (r: Result<HostAction, RunFailure>)
        ensures
            (final(self)@, r) == old(self)@.execute(OpCode::Return),
            final(self)@.wf(),
            r is Ok ==> {
                &&& old(self)@.stack.len() > 0
                &&& final(self)@ == (Machine {
                    stack: old(self)@.stack.drop_last(),
                    pc: old(self)@.stack.last(),
                    ..old(self)@
                })
            },
    {
        proof {
            use_type_invariant(&*self);
            lemma_execute_keeps_invariant(self@, OpCode::Return);
        }
        if self.halted {
            return Err(RunFailure::Halt);
        }
        match self.pop_off_stack() {
            Some(return_address) => {
                self.go_to(return_address);
                Ok(HostAction::Nothing)
            },
            None => {
                self.halted = true;
                Err(RunFailure::CannotReturnStackIsEmpty)
            },
        }
    }

    /// Executes `out`: hands the low byte of a value to the host for writing.
    pub fn handle_out(&mut self, out: Out) -> (r: Result<HostAction, RunFailure>)
        ensures
            (final(self)@, r) == old(self)@.execute(OpCode::Out(out)),
            final(self)@.wf(),
    {
        proof {
            use_type_invariant(&*self);
            lemma_execute_keeps_invariant(self@, OpCode::Out(out));
        }
        if self.halted {
            return Err(RunFailure::Halt);
        }
        let actual_value = self.get_literal_value_or_register_value(out.value)?;
        match self.next_address(2) {
            Some(next) => {
                self.go_to(next);
                Ok(HostAction::Write((actual_value % 256) as u8))
            },
            None => Err(RunFailure::InvalidValue),
        }
    }

    /// Executes `in`: moves the oldest pending input byte into a register. Without
    /// pending input it asks for a line, whatever the operand is.
    pub fn handle_in(&mut self, in_arg: In) -> (r: Result<HostAction, RunFailure>)
        ensures
            (final(self)@, r) == old(self)@.execute(OpCode::In(in_arg)),
            final(self)@.wf(),
    {
        proof {
            use_type_invariant(&*self);
            lemma_execute_keeps_invariant(self@, OpCode::In(in_arg));
        }
        if self.halted {
            return Err(RunFailure::Halt);
        }
        if self.pending_char.len() == 0 {
            return Ok(HostAction::ReadLine);
        }
        let byte = self.pending_char[0];
        self.store(2, in_arg.value, byte as u16)?;
        self.drop_input_byte();
        Ok(HostAction::Nothing)
    }

    /// Executes `noop`: goes on at the next word.
    pub fn handle_noop(&mut self) -> (r: Result<HostAction, RunFailure>)
        ensures
            (final(self)@, r) == old(self)@.execute(OpCode::Noop),
            final(self)@.wf(),
    {
        proof {
            use_type_invariant(&*self);
            lemma_execute_keeps_invariant(self@, OpCode::Noop);
        }
        if self.halted {
            return Err(RunFailure::Halt);
        }
        self.go_on(1)
    }

    /// Executes the instruction `op_code` on the machine as it stands,
    /// whatever memory holds at the program counter.
    ///
    /// What the instruction does is [`Machine::execute`]. An instruction
    /// that cannot be carried out leaves the machine as it is; `halt`, and
    /// `ret` on an empty stack, leave it halted.
    pub fn handle_op_code(&mut self, op_code: OpCode) -> (r: Result<HostAction, RunFailure>)
        ensures
            (final(self)@, r) == old(self)@.execute(op_code),
            final(self)@.wf(),
    {
        proof {
            use_type_invariant(&*self);
        }
        if self.halted {
            return Err(RunFailure::Halt);
        }
        let result = match op_code {
            OpCode::Halt => {
                self.halted = true;
                Err(RunFailure::Halt)
            },
            OpCode::SetRegister(set_register) => self.handle_set_register(set_register),
            OpCode::Push(push) => self.handle_push(push),
            OpCode::Pop(pop) => self.handle_pop(pop),
            OpCode::IsEqual(is_equal) => self.handle_is_equal(is_equal),
            OpCode::IsGreaterThan(greater_than) => self.handle_greater_than(greater_than),
            OpCode::Jump(jump) => self.handle_jump(jump),
            OpCode::JumpNotZero(jump_not_zero) => self.handle_jump_not_zero(jump_not_zero),
            OpCode::JumpZero(jump_zero) => self.handle_jump_zero(jump_zero),
            OpCode::Add(add) => self.handle_add(add),
            OpCode::Multiply(multiply) => self.handle_multiply(multiply),
            OpCode::Modulo(modulo) => self.handle_modulo(modulo),
            OpCode::And(and) => self.handle_and(and),
            OpCode::Or(or) => self.handle_or(or),
            OpCode::Not(not) => self.handle_not(not),
            OpCode::ReadMemory(read_memory) => self.handle_read_memory(read_memory),
            OpCode::WriteMemory(write_memory) => self.handle_write_memory(write_memory),
            OpCode::Call(call) => self.handle_call(call),
            OpCode::Return => self.handle_return(),
            OpCode::Out(out) => self.handle_out(out),
            OpCode::In(in_arg) => self.handle_in(in_arg),
            OpCode::Noop => self.handle_noop(),
        };
        proof {
            use_type_invariant(&*self);
        }
        result
    }

    /// Decodes the instruction at the program counter and executes it.
    ///
    /// What a step does is [`Machine::step`]. A halted machine says `Halt`
    /// and stays as it is. Words that are no instruction give the decoder's
    /// reason and leave the machine as it is. An `in` that finds no pending
    /// input asks for a line and leaves the machine as it is: the same
    /// instruction is met again by the next step. Every other instruction is
    /// executed and counted.
    pub fn step(&mut self) -> (r: Result<HostAction, RunFailure>)
        ensures
            (final(self)@, r) == old(self)@.step(),
            final(self)@.wf(),
    {
        proof {
            use_type_invariant(&*self);
        }
        if self.halted {
            return Err(RunFailure::Halt);
        }
        match read_memory_to_op_code(self.memory.as_slice(), self.program_counter) {
            Err(e) => Err(RunFailure::OpCodeParseFailure(e)),
            Ok(op_code) => {
                let result = self.handle_op_code(op_code);
                match result {
                    Ok(HostAction::ReadLine) => {},
                    _ => {
                        if self.step_nb < u64::MAX {
                            self.step_nb = self.step_nb + 1;
                        }
                    },
                }
                proof {
                    use_type_invariant(&*self);
                }
                result
            },
        }
    }

    /// Takes a line of input.
    ///
    /// What the line does is [`Machine::feed`]. A line that mentions `dump`
    /// is not delivered: the host is asked to dump the state, and the
    /// machine stays as it is. Of any other line the bytes above 126 and the
    /// carriage returns are dropped and the rest is appended to the pending
    /// input, line feed included. If nothing is left of the line, as at the
    /// end of the input, the answer is `InvalidInput`.
    pub fn feed_line(&mut self, line: &[u8]) -> (r: Result<HostAction, RunFailure>)
        ensures
            (final(self)@, r) == old(self)@.feed(line@),
            final(self)@.wf(),
    {
        proof {
            use_type_invariant(&*self);
        }
        if line_mentions_dump(line) {
            return Ok(HostAction::Dump);
        }
        let mut pending = VecDeque::new();
        core::mem::swap(&mut self.pending_char, &mut pending);
        let ghost before = pending@;
        let length_before = pending.len();
        let mut i: usize = 0;
        while i < line.len()
            invariant
                i <= line.len(),
                pending@ == before + kept_bytes(line@.take(i as int)),
                all_input_bytes(pending@),
            decreases line.len() - i,
        {
            let byte = line[i];
            proof {
                lemma_kept_bytes_take(line@, i as int);
            }
            if byte <= 126 && byte != 13 {
                pending.push_back(byte);
            }
            i = i + 1;
        }
        assert(line@.take(i as int) == line@);
        let grown = pending.len() > length_before;
        core::mem::swap(&mut self.pending_char, &mut pending);
        if grown {
            Ok(HostAction::Nothing)
        } else {
            assert(self@.pending_input == before);
            Err(RunFailure::InvalidInput)
        }
    }

    /// The words of memory.
    pub fn memory(&self) -> (memory: &Vec<u16>)
        ensures
            memory@ == self@.memory,
    {
        &self.memory
    }

    /// The contents of the eight registers.
    pub fn registers(&self) -> (registers: &[u16; 8])
        ensures
            registers@ == self@.registers,
            all_literals(registers@),
    {
        proof {
            use_type_invariant(self);
        }
        &self.register
    }

    /// The stack, bottom first.
    pub fn stack(&self) -> (stack: &Vec<u16>)
        ensures
            stack@ == self@.stack,
            all_literals(stack@),
    {
        proof {
            use_type_invariant(self);
        }
        &self.stack
    }

    /// The word index of the next instruction.
    pub fn program_counter(&self) -> (pc: u16)
        ensures
            pc == self@.pc,
    {
        self.program_counter
    }

    /// The number of instructions that were taken up for execution.
    pub fn step_count(&self) -> (steps: u64)
        ensures
            steps == self@.steps,
    {
        self.step_nb
    }

    /// Whether the machine has stopped for good.
    pub fn is_halted(&self) -> (halted: bool)
        ensures
            halted == self@.halted,
    {
        self.halted
    }
}

/// What `kept_bytes` keeps of one byte more: the byte itself, if input keeps it.
proof fn lemma_kept_bytes_take(line: Seq<u8>, i: int)
    requires
        0 <= i < line.len(),
    ensures
        kept_bytes(line.take(i + 1)) == if is_input_byte(line[i]) {
            kept_bytes(line.take(i)).push(line[i])
        } else {
            kept_bytes(line.take(i))
        },
        i == 0 ==> kept_bytes(line.take(i)) == Seq::<u8>::empty(),
{
    reveal(Seq::filter);
    assert(line.take(i + 1).drop_last() == line.take(i));
}

/// Whether the word `dump` occurs in `line`.
fn line_mentions_dump(line: &[u8]) -> (found: bool)
    ensures
        found == mentions_dump(line@),
{
    if line.len() < 4 {
        return false;
    }
    let last_start = line.len() - 4;
    let mut i: usize = 0;
    while i <= last_start
        invariant
            last_start + 4 == line.len(),
            forall|j: int| 0 <= j < i ==> !dump_at(line@, j),
        decreases last_start + 1 - i,
    {
        if line[i] == 100 && line[i + 1] == 117 && line[i + 2] == 109 && line[i + 3] == 112 {
            assert(dump_at(line@, i as int));
            return true;
        }
        i = i + 1;
    }
    false
}

} // verus!
