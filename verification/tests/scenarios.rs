use synacor_vm::opcode::{Call, Jump, OpCode, Pop, Push, ReadOpCodeFailure, SetRegister};
use synacor_vm::vm::{HostAction, RunFailure, VM};

const R0: u16 = 32768;
const R1: u16 = 32769;
const R2: u16 = 32770;

/// What a run of a program came to.
struct Run {
    output: Vec<u8>,
    dumps: usize,
    steps: usize,
    lines_read: usize,
    end: RunFailure,
}

/// Runs `vm` as a host does: writes what it is told to write, and reads the
/// lines of `input` when it is asked for one.
fn run(vm: &mut VM, input: &[u8]) -> Run {
    let mut lines = input.split_inclusive(|&b| b == b'\n');
    let mut run = Run { output: vec![], dumps: 0, steps: 0, lines_read: 0, end: RunFailure::Halt };
    loop {
        assert!(run.steps < 100_000, "the program does not end");
        run.steps += 1;
        let mut action = vm.step();
        if action == Ok(HostAction::ReadLine) {
            run.steps -= 1;
            run.lines_read += 1;
            action = vm.feed_line(lines.next().unwrap_or(&[]));
        }
        match action {
            Ok(HostAction::Nothing) => {},
            Ok(HostAction::Write(byte)) => run.output.push(byte),
            Ok(HostAction::Dump) => run.dumps += 1,
            Ok(HostAction::ReadLine) => unreachable!(),
            Err(failure) => {
                run.end = failure;
                return run;
            },
        }
    }
}

#[test]
fn halt_immediately() {
    let mut vm = VM::new(vec![0]);
    assert_eq!(vm.step(), Err(RunFailure::Halt));
    assert!(vm.is_halted());
    assert_eq!(vm.program_counter(), 0);
    assert_eq!(vm.step_count(), 1);

    let mut vm = VM::new(vec![0]);
    let run = run(&mut vm, b"");
    assert_eq!(run.end, RunFailure::Halt);
    assert_eq!(run.steps, 1);
    assert!(run.output.is_empty());
    assert_eq!(vm.program_counter(), 0);
}

#[test]
fn h_then_halt() {
    let mut vm = VM::new(vec![19, 72, 0]);
    let run = run(&mut vm, b"");
    assert_eq!(run.output, b"H");
    assert_eq!(run.output, vec![0x48]);
    assert_eq!(run.end, RunFailure::Halt);
    assert_eq!(run.steps, 2);
    assert_eq!(vm.step_count(), 2);
    assert_eq!(run.lines_read, 0);
}

#[test]
fn self_test_boot_sequence() {
    let mut vm = VM::new(vec![9, 32768, 32769, 4, 19, 32768, 0]);
    let run = run(&mut vm, b"");
    assert_eq!(run.output, vec![0x04]);
    assert_eq!(run.end, RunFailure::Halt);
    assert_eq!(vm.registers(), &[4, 0, 0, 0, 0, 0, 0, 0]);
    assert_eq!(run.steps, 3);
}

#[test]
fn loop_with_jf_and_add() {
    // The jump of `jf` leads to the `halt` at index 12.
    let mut vm = VM::new(vec![1, 32768, 3, 9, 32768, 32768, 32767, 8, 32768, 12, 6, 3, 0]);
    let run = run(&mut vm, b"");
    assert_eq!(run.end, RunFailure::Halt);
    assert_eq!(vm.registers()[0], 0);
    assert_eq!(vm.program_counter(), 12);
    assert!(run.output.is_empty());
    // set, then three rounds of add and jf, two of them followed by jmp, then halt
    assert_eq!(run.steps, 1 + 3 * 2 + 2 + 1);
}

#[test]
fn loop_with_jf_and_add_that_jumps_past_the_end() {
    // Here the jump of `jf` leads to word 13 of a memory of 13 words.
    let mut vm = VM::new(vec![1, 32768, 3, 9, 32768, 32768, 32767, 8, 32768, 13, 6, 3, 0]);
    let run = run(&mut vm, b"");
    assert_eq!(vm.registers()[0], 0);
    assert_eq!(vm.program_counter(), 13);
    assert_eq!(run.end, RunFailure::OpCodeParseFailure(ReadOpCodeFailure::NotEnoughMemory));
    assert!(!vm.is_halted());
    assert_eq!(vm.step_count(), 1 + 3 * 2 + 2);
}

#[test]
fn rmem_wmem_round_trip() {
    let mut vm = VM::new(vec![16, 10, 123, 15, 32768, 10, 19, 32768, 0, 0, 0]);
    let run = run(&mut vm, b"");
    assert_eq!(run.output, vec![0x7b]);
    assert_eq!(run.end, RunFailure::Halt);
    assert_eq!(vm.memory()[10], 123);
    assert_eq!(vm.registers()[0], 123);
    assert_eq!(vm.program_counter(), 8);
}

/// A program that reads three bytes and writes each of them out.
fn echo_three() -> Vec<u16> {
    vec![20, R0, 19, R0, 20, R0, 19, R0, 20, R0, 19, R0, 0]
}

#[test]
fn in_opcode_dump_escape() {
    let mut vm = VM::new(echo_three());
    let run = run(&mut vm, b"dump\nhi\n");
    assert_eq!(run.dumps, 1);
    assert_eq!(run.output, b"hi\n");
    assert_eq!(run.end, RunFailure::Halt);
    assert_eq!(run.lines_read, 2);
}

#[test]
fn a_dump_line_changes_nothing() {
    let mut vm = VM::new(echo_three());
    assert_eq!(vm.step(), Ok(HostAction::ReadLine));
    assert_eq!(vm.feed_line(b"please dump it\n"), Ok(HostAction::Dump));
    assert_eq!(vm.program_counter(), 0);
    assert_eq!(vm.registers(), &[0; 8]);
    assert_eq!(vm.step_count(), 0);
    assert_eq!(vm.memory(), &echo_three());
    // The machine still waits for a line.
    assert_eq!(vm.step(), Ok(HostAction::ReadLine));
    assert_eq!(vm.step_count(), 0);
    assert_eq!(vm.feed_line(b"hi\n"), Ok(HostAction::Nothing));
    assert_eq!(vm.step(), Ok(HostAction::Nothing));
    assert_eq!(vm.registers()[0], 104);
    assert_eq!(vm.step_count(), 1);
}

#[test]
fn dump_is_found_anywhere_in_the_line() {
    for line in [&b"dump"[..], b"dump\n", b"xdump", b"dudump\r\n", b"ddump!", b"\xffdump"] {
        let mut vm = VM::new(echo_three());
        assert_eq!(vm.feed_line(line), Ok(HostAction::Dump));
    }
    for line in [&b"dum"[..], b"dum p\n", b"Dump\n", b"pmud\n", b"du\rmp\n", b"d\nump", b"ump\n"] {
        let mut vm = VM::new(echo_three());
        assert_eq!(vm.feed_line(line), Ok(HostAction::Nothing));
    }
}

#[test]
fn input_drops_carriage_returns_and_bytes_above_126() {
    let mut vm = VM::new(vec![20, R0, 19, R0, 6, 0]);
    let run = run(&mut vm, b"a\r\n\x7f\x7e\x80\xff\tb\x00\n");
    assert_eq!(run.output, b"a\n\x7e\tb\x00\n");
    assert_eq!(run.end, RunFailure::InvalidInput);
    assert_eq!(run.lines_read, 3);
}

#[test]
fn the_end_of_input_is_invalid_input() {
    let mut vm = VM::new(echo_three());
    assert_eq!(vm.step(), Ok(HostAction::ReadLine));
    assert_eq!(vm.feed_line(b""), Err(RunFailure::InvalidInput));
    assert!(!vm.is_halted());
    assert_eq!(vm.program_counter(), 0);
    // A line of which nothing is kept counts as the end as well.
    assert_eq!(vm.feed_line(b"\r\xc3\xa9"), Err(RunFailure::InvalidInput));
    assert_eq!(vm.step(), Ok(HostAction::ReadLine));
}

#[test]
fn one_line_serves_many_reads() {
    let mut vm = VM::new(echo_three());
    let run = run(&mut vm, b"hello\n");
    assert_eq!(run.output, b"hel");
    assert_eq!(run.lines_read, 1);
    assert_eq!(run.end, RunFailure::Halt);
}

#[test]
fn lines_queue_up_in_their_order() {
    let mut vm = VM::new(echo_three());
    assert_eq!(vm.feed_line(b"a"), Ok(HostAction::Nothing));
    assert_eq!(vm.feed_line(b"\xffb\r"), Ok(HostAction::Nothing));
    assert_eq!(vm.feed_line(b"c"), Ok(HostAction::Nothing));
    let run = run(&mut vm, b"");
    assert_eq!(run.output, b"abc");
    assert_eq!(run.lines_read, 0);
}

#[test]
fn only_in_asks_for_a_line() {
    let mut vm = VM::new(vec![21, 1, R0, 65, 2, R0, 3, R1, 19, R1, 18]);
    let run = run(&mut vm, b"never read\n");
    assert_eq!(run.lines_read, 0);
    assert_eq!(run.output, b"A");
    assert_eq!(run.end, RunFailure::CannotReturnStackIsEmpty);
    assert!(vm.is_halted());
}

#[test]
fn a_step_past_the_end_of_memory_fails_in_the_decoder() {
    let mut vm = VM::new(vec![21]);
    assert_eq!(vm.step(), Ok(HostAction::Nothing));
    assert_eq!(vm.program_counter(), 1);
    assert_eq!(
        vm.step(),
        Err(RunFailure::OpCodeParseFailure(ReadOpCodeFailure::NotEnoughMemory))
    );
    assert_eq!(vm.program_counter(), 1);
    assert_eq!(vm.step_count(), 1);
    assert!(!vm.is_halted());
}

#[test]
fn a_step_reports_what_the_decoder_finds() {
    let mut vm = VM::new(vec![22]);
    assert_eq!(vm.step(), Err(RunFailure::OpCodeParseFailure(ReadOpCodeFailure::InvalidOpCode)));
    let mut vm = VM::new(vec![1, 5, 5]);
    assert_eq!(
        vm.step(),
        Err(RunFailure::OpCodeParseFailure(ReadOpCodeFailure::InvalidOperandValue))
    );
    let mut vm = VM::new(vec![1, R0]);
    assert_eq!(
        vm.step(),
        Err(RunFailure::OpCodeParseFailure(ReadOpCodeFailure::NotEnoughMemory))
    );
    assert_eq!(vm.step_count(), 0);
    assert_eq!(vm.program_counter(), 0);
}

#[test]
fn a_step_counts_an_instruction_that_fails() {
    // mod by zero
    let mut vm = VM::new(vec![11, R0, 5, 0]);
    assert_eq!(vm.step(), Err(RunFailure::InvalidValue));
    assert_eq!(vm.step_count(), 1);
    assert_eq!(vm.program_counter(), 0);
    // pop on an empty stack
    let mut vm = VM::new(vec![3, R0]);
    assert_eq!(vm.step(), Err(RunFailure::CannotPopStackIsEmpty));
    assert_eq!(vm.step_count(), 1);
}

#[test]
fn the_program_counter_moves_by_the_width_of_the_instruction() {
    let program =
        vec![21, 1, R0, 7, 2, R0, 4, R1, R0, 7, 9, R2, R1, R0, 14, R2, R2, 19, R2, 3, R0, 0];
    let widths = [1u16, 3, 2, 4, 4, 3, 2, 2];
    let mut vm = VM::new(program.clone());
    for width in widths {
        let before = vm.program_counter();
        assert!(vm.step().is_ok());
        assert_eq!(vm.program_counter(), before + width);
        assert!((vm.program_counter() as usize) < program.len());
    }
    assert_eq!(vm.step(), Err(RunFailure::Halt));
    assert_eq!(vm.program_counter(), 21);
}

#[test]
fn push_then_pop_gives_the_value_back() {
    for value in [0u16, 1, 77, 32767] {
        let mut vm = VM::new(vec![2, value, 3, R2, 0]);
        assert_eq!(vm.handle_op_code(OpCode::Push(Push { value: 5 })), Ok(HostAction::Nothing));
        assert_eq!(vm.handle_op_code(OpCode::Jump(Jump { value: 0 })), Ok(HostAction::Nothing));
        let depth = vm.stack().len();
        assert_eq!(vm.step(), Ok(HostAction::Nothing));
        assert_eq!(vm.stack().len(), depth + 1);
        assert_eq!(vm.step(), Ok(HostAction::Nothing));
        assert_eq!(vm.registers()[2], value);
        assert_eq!(vm.stack().len(), depth);
        assert_eq!(vm.stack(), &vec![5]);
    }
    // The value of a register is pushed, not its name.
    let mut vm = VM::new(vec![]);
    assert_eq!(
        vm.handle_op_code(OpCode::SetRegister(SetRegister { register: R1, value: 9 })),
        Ok(HostAction::Nothing)
    );
    assert_eq!(vm.handle_op_code(OpCode::Push(Push { value: R1 })), Ok(HostAction::Nothing));
    assert_eq!(vm.handle_op_code(OpCode::Pop(Pop { value: R0 })), Ok(HostAction::Nothing));
    assert_eq!(vm.registers()[0], 9);
    assert!(vm.stack().is_empty());
}

#[test]
fn call_then_ret_comes_back_behind_the_call() {
    // 0: push 9, 2: call 6, 4: out 'k', 6: ret (entered by the call), 7: halt
    let mut vm = VM::new(vec![2, 9, 17, 6, 0, 21, 18, 0]);
    assert_eq!(vm.step(), Ok(HostAction::Nothing));
    let depth = vm.stack().len();
    let before_call = vm.program_counter();
    assert_eq!(before_call, 2);
    assert_eq!(vm.step(), Ok(HostAction::Nothing));
    assert_eq!(vm.program_counter(), 6);
    assert_eq!(vm.stack().len(), depth + 1);
    assert_eq!(vm.step(), Ok(HostAction::Nothing));
    assert_eq!(vm.program_counter(), before_call + 2);
    assert_eq!(vm.stack().len(), depth);
    assert_eq!(vm.stack(), &vec![9]);
    assert_eq!(vm.step(), Err(RunFailure::Halt));
}

#[test]
fn call_then_ret_with_other_work_in_between() {
    let mut vm = VM::new(vec![]);
    assert_eq!(vm.handle_op_code(OpCode::Jump(Jump { value: 30 })), Ok(HostAction::Nothing));
    assert_eq!(vm.handle_op_code(OpCode::Call(Call { value: 100 })), Ok(HostAction::Nothing));
    assert_eq!(
        vm.handle_op_code(OpCode::SetRegister(SetRegister { register: R0, value: 1 })),
        Ok(HostAction::Nothing)
    );
    assert_eq!(vm.handle_op_code(OpCode::Noop), Ok(HostAction::Nothing));
    assert_eq!(vm.handle_op_code(OpCode::Return), Ok(HostAction::Nothing));
    assert_eq!(vm.program_counter(), 32);
    assert!(vm.stack().is_empty());
}
