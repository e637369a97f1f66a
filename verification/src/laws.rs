//! What holds of every machine: the laws that follow from the definitions
//! in [`crate::machine`], each proved.

use crate::machine::{
    all_input_bytes, all_literals, complement, compute, kept_bytes, product, sum, Event, Machine,
};
use crate::opcode::{
    classify, decode, operand_count, Call, OpCode, ParsedNumber, Pop, Push, ReadOpCodeFailure,
};
use crate::vm::{HostAction, RunFailure};
use vstd::prelude::*;

verus! {

/// Sums and products are literals whatever the operands are; so is the
/// complement, which is the bitwise negation cut down to its low 15 bits
/// and, for a literal, what is missing to 32767.
pub proof fn lemma_arithmetic_gives_literals(x: u16, y: u16)
    ensures
        sum(x, y) < 32768,
        sum(x, y) == (x + y) % 32768,
        product(x, y) < 32768,
        product(x, y) == (x * y) % 32768,
        complement(x) < 32768,
        complement(x) == !x & 0x7fff,
        x < 32768 ==> complement(x) == 32767 - x,
{
    assert(!x & 0x7fff < 32768) by (bit_vector);
    assert(x < 32768 ==> !x & 0x7fff == 32767 - x) by (bit_vector);
}

/// Every two-operand operation gives a literal when its operands are literals.
pub proof fn lemma_compute_gives_literal(code: u16, x: u16, y: u16)
    requires
        x < 32768,
        y < 32768,
    ensures
        compute(code, x, y) matches Some(v) ==> v < 32768,
{
    lemma_arithmetic_gives_literals(x, y);
    assert(x & y < 32768) by (bit_vector)
        requires
            x < 32768,
            y < 32768,
    ;
    assert(x | y < 32768) by (bit_vector)
        requires
            x < 32768,
            y < 32768,
    ;
    if y != 0 {
        assert(x % y < y) by (nonlinear_arith)
            requires
                y > 0,
        ;
    }
}

/// An operand of a well-formed machine stands for a literal, if for anything.
pub proof fn lemma_value_is_literal(s: Machine, w: u16)
    requires
        s.wf(),
    ensures
        s.value_of(w) matches Some(v) ==> v < 32768,
        s.value_of(w) is Some <==> !(classify(w) is InvalidNumber),
{
}

/// No instruction puts anything but a literal in a register: a register
/// that holds another word after the instruction than before holds a
/// literal. Of the state before, only the number of registers is asked.
pub proof fn lemma_register_writes_are_literals(s: Machine, op: OpCode, i: int)
    requires
        s.registers.len() == 8,
        0 <= i < 8,
    ensures
        s.execute(op).0.registers.len() == 8,
        s.execute(op).0.registers[i] != s.registers[i] ==> s.execute(op).0.registers[i] < 32768,
{
}

/// Storing a value in a register keeps the invariant and touches nothing
/// but that register and the program counter.
pub proof fn lemma_stored_keeps_invariant(s: Machine, width: int, target: u16, value: Option<u16>)
    requires
        s.wf(),
    ensures
        s.stored(width, target, value) matches Some(next) ==> {
            &&& next.wf()
            &&& next.pc == s.pc + width
            &&& next == Machine { registers: next.registers, pc: next.pc, ..s }
            &&& classify(target) matches ParsedNumber::Register(r) && value matches Some(v)
                && next.registers == s.registers.update(r as int, v)
        },
{
    if let Some(next) = s.stored(width, target, value) {
        assert(all_literals(next.registers));
    }
}

/// The invariant of the machine is kept by every instruction.
pub proof fn lemma_execute_keeps_invariant(s: Machine, op: OpCode)
    requires
        s.wf(),
    ensures
        s.execute(op).0.wf(),
{
    let next = s.execute(op).0;
    if s.halted {
    } else {
        match op {
            OpCode::Halt => {},
            OpCode::SetRegister(o) => {
                lemma_stored_keeps_invariant(s, op.width(), o.register, s.value_of(o.value));
            },
            OpCode::Push(o) => {
                lemma_value_is_literal(s, o.value);
                assert(all_literals(next.stack));
            },
            OpCode::Pop(o) => {
                if s.stack.len() > 0 {
                    lemma_stored_keeps_invariant(s, op.width(), o.value, Some(s.stack.last()));
                    assert(all_literals(next.stack));
                }
            },
            OpCode::IsEqual(o) => {
                lemma_stored_keeps_invariant(
                    s,
                    op.width(),
                    o.cell_result,
                    s.combined(op.code(), o.first_operand, o.second_operand),
                );
            },
            OpCode::IsGreaterThan(o) => {
                lemma_stored_keeps_invariant(
                    s,
                    op.width(),
                    o.cell_result,
                    s.combined(op.code(), o.first_operand, o.second_operand),
                );
            },
            OpCode::Jump(_) => {},
            OpCode::JumpNotZero(_) => {},
            OpCode::JumpZero(_) => {},
            OpCode::Add(o) => {
                lemma_stored_keeps_invariant(
                    s,
                    op.width(),
                    o.cell_result,
                    s.combined(op.code(), o.first_operand, o.second_operand),
                );
            },
            OpCode::Multiply(o) => {
                lemma_stored_keeps_invariant(
                    s,
                    op.width(),
                    o.cell_result,
                    s.combined(op.code(), o.first_operand, o.second_operand),
                );
            },
            OpCode::Modulo(o) => {
                lemma_stored_keeps_invariant(
                    s,
                    op.width(),
                    o.cell_result,
                    s.combined(op.code(), o.first_operand, o.second_operand),
                );
            },
            OpCode::And(o) => {
                lemma_stored_keeps_invariant(
                    s,
                    op.width(),
                    o.cell_result,
                    s.combined(op.code(), o.first_operand, o.second_operand),
                );
            },
            OpCode::Or(o) => {
                lemma_stored_keeps_invariant(
                    s,
                    op.width(),
                    o.cell_result,
                    s.combined(op.code(), o.first_operand, o.second_operand),
                );
            },
            OpCode::Not(o) => {
                let value = match s.value_of(o.operand) {
                    Some(x) => Some(complement(x)),
                    None => None,
                };
                lemma_stored_keeps_invariant(s, op.width(), o.cell_result, value);
            },
            OpCode::ReadMemory(o) => {
                lemma_stored_keeps_invariant(
                    s,
                    op.width(),
                    o.cell_result,
                    s.loaded(o.memory_address_to_read),
                );
            },
            OpCode::WriteMemory(_) => {},
            OpCode::Call(_) => {
                assert(all_literals(next.stack));
            },
            OpCode::Return => {
                assert(all_literals(next.stack));
            },
            OpCode::Out(_) => {},
            OpCode::In(o) => {
                if s.pending_input.len() > 0 {
                    lemma_stored_keeps_invariant(
                        s,
                        op.width(),
                        o.value,
                        Some(s.pending_input[0] as u16),
                    );
                    assert(all_input_bytes(next.pending_input));
                }
            },
            OpCode::Noop => {},
        }
    }
}

/// The invariant of the machine is kept by every step.
pub proof fn lemma_step_keeps_invariant(s: Machine)
    requires
        s.wf(),
    ensures
        s.step().0.wf(),
{
    if let Ok(op) = decode(s.memory, s.pc as int) {
        lemma_execute_keeps_invariant(s, op);
    }
}

/// The invariant of the machine is kept by every line of input.
pub proof fn lemma_feed_keeps_invariant(s: Machine, line: Seq<u8>)
    requires
        s.wf(),
    ensures
        s.feed(line).0.wf(),
{
    broadcast use Seq::lemma_filter_pred;

    let kept = kept_bytes(line);
    assert(all_input_bytes(kept));
}

/// The invariant holds of a machine that was just loaded.
pub proof fn lemma_initial_invariant(memory: Seq<u16>)
    ensures
        Machine::initial(memory).wf(),
{
}

/// The invariant holds in every state that a machine gets into: whatever is
/// done to a machine that keeps the invariant, registers and stack hold
/// literals only, the pending input holds only bytes that input keeps, and
/// memory has the length that it had.
pub proof fn lemma_invariant_after_events(s: Machine, events: Seq<Event>)
    requires
        s.wf(),
    ensures
        s.after(events).wf(),
        s.after(events).memory.len() == s.memory.len(),
    decreases events.len(),
{
    if events.len() > 0 {
        lemma_invariant_after_events(s, events.drop_last());
        let before = s.after(events.drop_last());
        match events.last() {
            Event::Step => {
                lemma_step_keeps_invariant(before);
                lemma_program_counter_after_step(before);
            },
            Event::Instruction(op) => {
                lemma_execute_keeps_invariant(before, op);
                lemma_program_counter_after_execute(before, op);
            },
            Event::Line(line) => {
                lemma_feed_keeps_invariant(before, line);
            },
        }
    }
}

/// The invariant holds in every state that a loaded machine gets into.
pub proof fn lemma_invariant_always(memory: Seq<u16>, events: Seq<Event>)
    ensures
        Machine::initial(memory).after(events).wf(),
        Machine::initial(memory).after(events).memory.len() == memory.len(),
{
    lemma_invariant_after_events(Machine::initial(memory), events);
}

/// The address at which the machine goes on after `op` because `op` says
/// so: the target of a jump that is taken or of a call, and the address that
/// `ret` finds on the stack. Instructions that go on at the next
/// instruction have none.
pub open spec fn jump_target(s: Machine, op: OpCode) -> Option<u16> {
    match op {
        OpCode::Jump(o) => s.value_of(o.value),
        OpCode::JumpNotZero(o) => if s.value_of(o.value) != Some(0u16) {
            s.value_of(o.jump_location)
        } else {
            None
        },
        OpCode::JumpZero(o) => if s.value_of(o.value) == Some(0u16) {
            s.value_of(o.jump_location)
        } else {
            None
        },
        OpCode::Call(o) => s.value_of(o.value),
        OpCode::Return => if s.stack.len() > 0 {
            Some(s.stack.last())
        } else {
            None
        },
        _ => None,
    }
}

/// Where the machine goes on after an instruction. An instruction that was
/// carried out leaves the program counter at its jump target or, where it
/// has none, at the word after its last operand. An instruction that was
/// not carried out, and an `in` that waits for a line, leave it where it was.
pub proof fn lemma_program_counter_after_execute(s: Machine, op: OpCode)
    ensures
        match s.execute(op) {
            (next, Ok(HostAction::ReadLine)) => next == s,
            (next, Ok(_)) => next.pc == match jump_target(s, op) {
                Some(target) => target as int,
                None => s.pc + op.width(),
            },
            (next, Err(_)) => next.pc == s.pc,
        },
        s.execute(op).0.memory.len() == s.memory.len(),
{
    // By cases: each instruction is looked at on its own.
    if !s.halted {
        match op {
            OpCode::SetRegister(_) => {},
            OpCode::Push(_) => {},
            OpCode::Pop(_) => {},
            OpCode::IsEqual(_) | OpCode::IsGreaterThan(_) => {},
            OpCode::Jump(_) | OpCode::JumpNotZero(_) | OpCode::JumpZero(_) => {},
            OpCode::Add(_) | OpCode::Multiply(_) | OpCode::Modulo(_) => {},
            OpCode::And(_) | OpCode::Or(_) | OpCode::Not(_) => {},
            OpCode::ReadMemory(_) | OpCode::WriteMemory(_) => {},
            OpCode::Call(_) | OpCode::Return => {},
            OpCode::Out(_) | OpCode::In(_) => {},
            OpCode::Halt | OpCode::Noop => {},
        }
    }
}

/// Where the machine goes on after a step. A step that succeeds has decoded
/// an instruction that lies wholly in memory, and leaves the program
/// counter at the jump target of that instruction or, where it has none, at
/// the word after its last operand, which is at most the length of memory.
/// Memory keeps its length.
pub proof fn lemma_program_counter_after_step(s: Machine)
    ensures
        s.step().0.memory.len() == s.memory.len(),
        s.step().1 is Err ==> s.step().0.pc == s.pc,
        s.step().1 is Ok ==> {
            &&& decode(s.memory, s.pc as int) matches Ok(op)
            &&& s.pc + op.width() <= s.memory.len()
            &&& s.step().1 == Ok::<HostAction, RunFailure>(HostAction::ReadLine) ==> s.step().0 == s
            &&& s.step().1 != Ok::<HostAction, RunFailure>(HostAction::ReadLine) ==> s.step().0.pc
                == match jump_target(s, op) {
                Some(target) => target as int,
                None => s.pc + op.width(),
            }
        },
{
    if let Ok(op) = decode(s.memory, s.pc as int) {
        lemma_program_counter_after_execute(s, op);
        crate::opcode::lemma_decode_ok(s.memory, s.pc as int);
    }
}

/// A machine whose program counter lies beyond the end of memory goes no
/// further: the step fails in the decoder and changes nothing.
pub proof fn lemma_step_beyond_memory(s: Machine)
    requires
        !s.halted,
        s.pc >= s.memory.len(),
    ensures
        s.step() == (
            s,
            Err::<HostAction, RunFailure>(
                RunFailure::OpCodeParseFailure(ReadOpCodeFailure::NotEnoughMemory),
            ),
        ),
{
}

/// A step finds too little memory exactly if the program counter lies
/// beyond the end of memory, or the operation there has operands beyond it.
pub proof fn lemma_step_finds_too_little_memory(s: Machine)
    requires
        !s.halted,
    ensures
        s.step().1 == Err::<HostAction, RunFailure>(
            RunFailure::OpCodeParseFailure(ReadOpCodeFailure::NotEnoughMemory),
        ) <==> s.pc >= s.memory.len() || (s.memory[s.pc as int] <= 21 && s.pc + operand_count(
            s.memory[s.pc as int],
        ) >= s.memory.len()),
{
    if let Ok(op) = decode(s.memory, s.pc as int) {
        lemma_line_wanted_by_in_only(s, op);
        lemma_failure_is_never_in_the_decoder(s, op);
    }
}

/// No instruction fails for a reason that only the decoder gives.
pub proof fn lemma_failure_is_never_in_the_decoder(s: Machine, op: OpCode)
    ensures
        !(s.execute(op).1 matches Err(RunFailure::OpCodeParseFailure(_))),
        s.execute(op).1 != Err::<HostAction, RunFailure>(RunFailure::InvalidInput),
{
}

/// A line is asked for by `in` alone, and only when no input is pending;
/// the machine then stays as it is. No instruction asks for a dump.
pub proof fn lemma_line_wanted_by_in_only(s: Machine, op: OpCode)
    ensures
        s.execute(op).1 == Ok::<HostAction, RunFailure>(HostAction::ReadLine) <==> !s.halted && op
            is In && s.pending_input.len() == 0,
        s.execute(op).1 == Ok::<HostAction, RunFailure>(HostAction::ReadLine) ==> s.execute(op).0
            == s,
        s.execute(op).1 != Ok::<HostAction, RunFailure>(HostAction::Dump),
        s.execute(op).1 matches Ok(HostAction::Write(_)) ==> op is Out,
{
}

/// A halted machine stays as it is, whatever it is asked to do, and says `Halt`.
pub proof fn lemma_halted_machine_stays(s: Machine, op: OpCode)
    requires
        s.halted,
    ensures
        s.execute(op) == (s, Err::<HostAction, RunFailure>(RunFailure::Halt)),
        s.step() == (s, Err::<HostAction, RunFailure>(RunFailure::Halt)),
{
}

/// A halted machine stays halted, whatever is done to it, and nothing but
/// its pending input changes any more.
pub proof fn lemma_halted_for_good(s: Machine, events: Seq<Event>)
    requires
        s.halted,
    ensures
        s.after(events) == (Machine { pending_input: s.after(events).pending_input, ..s }),
    decreases events.len(),
{
    if events.len() > 0 {
        lemma_halted_for_good(s, events.drop_last());
    }
}

/// An instruction that is not carried out changes nothing, except that
/// `halt` and `ret` on an empty stack leave the machine halted. The machine
/// is halted by these two alone.
pub proof fn lemma_failure_keeps_state(s: Machine, op: OpCode)
    ensures
        s.execute(op).1 is Err ==> s.execute(op).0 == (Machine {
            halted: s.execute(op).0.halted,
            ..s
        }),
        s.execute(op).1 is Ok ==> !s.execute(op).0.halted,
        s.execute(op).0.halted <==> s.halted || op is Halt || (op is Return && s.stack.len() == 0),
        op is Halt ==> s.execute(op).1 == Err::<HostAction, RunFailure>(RunFailure::Halt),
{
}

/// After `push` of an operand and `pop` into a register, the register holds
/// the value of the operand and the stack is as it was before the `push`.
pub proof fn lemma_push_then_pop(s: Machine, value: u16, register: u16)
    requires
        s.wf(),
        s.execute(OpCode::Push(Push { value })).1 is Ok,
        s.execute(OpCode::Push(Push { value })).0.execute(
            OpCode::Pop(Pop { value: register }),
        ).1 is Ok,
    ensures
        ({
            let pushed = s.execute(OpCode::Push(Push { value })).0;
            let popped = pushed.execute(OpCode::Pop(Pop { value: register })).0;
            &&& classify(register) matches ParsedNumber::Register(r)
            &&& s.value_of(value) matches Some(v)
            &&& popped.registers[r as int] == v
            &&& popped.stack == s.stack
            &&& pushed.stack.len() == s.stack.len() + 1
            &&& popped.pc == s.pc + 4
        }),
{
    let pushed = s.execute(OpCode::Push(Push { value })).0;
    let popped = pushed.execute(OpCode::Pop(Pop { value: register })).0;
    assert(pushed.stack.drop_last() == s.stack);
    assert(popped.stack == s.stack);
}

/// After a `call`, a `ret` that finds the stack as the `call` left it goes
/// on at the word after the `call` and leaves the stack as it was before
/// the `call`. What else has happened in between does not matter.
pub proof fn lemma_call_then_return(s: Machine, target: u16, later: Machine)
    requires
        s.execute(OpCode::Call(Call { value: target })).1 is Ok,
        later.stack == s.execute(OpCode::Call(Call { value: target })).0.stack,
        !later.halted,
    ensures
        s.value_of(target) == Some(s.execute(OpCode::Call(Call { value: target })).0.pc),
        later.stack.len() == s.stack.len() + 1,
        later.execute(OpCode::Return) == (
            Machine { pc: (s.pc + 2) as u16, stack: s.stack, ..later },
            Ok::<HostAction, RunFailure>(HostAction::Nothing),
        ),
        later.execute(OpCode::Return).0.pc == s.pc + 2,
{
    assert(later.stack.drop_last() == s.stack);
}

} // verus!
