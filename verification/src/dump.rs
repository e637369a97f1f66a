//! The state of a machine written out for inspection.
//!
//! A dump is made of five texts: the registers, the stack from the bottom
//! up, the program counter, the number of steps and the memory. Each text
//! holds one decimal number on each line. The texts of one dump belong in a
//! directory of their own that is named after the time of the dump.

use crate::vm::VM;
use vstd::prelude::*;

verus! {

/// The decimal digits of `n` as ASCII bytes, the most significant first.
pub open spec fn decimal(n: nat) -> Seq<u8>
    decreases n,
{
    if n < 10 {
        seq![(48 + n) as u8]
    } else {
        decimal(n / 10).push((48 + n % 10) as u8)
    }
}

/// The line that shows `n`: its decimal digits and a line feed.
pub open spec fn line_of(n: nat) -> Seq<u8> {
    decimal(n).push(10u8)
}

/// The text that shows `values`: one line for each, in their order.
pub open spec fn lines_of(values: Seq<u16>) -> Seq<u8>
    decreases values.len(),
{
    if values.len() == 0 {
        Seq::empty()
    } else {
        lines_of(values.drop_last()) + line_of(values.last() as nat)
    }
}

/// The name of the directory for the dump that was made at the time that
/// `stamp` shows.
pub open spec fn directory_of(stamp: Seq<char>) -> Seq<char> {
    "dump/"@ + stamp + "/"@
}

/// Whether `c` is one of the digits `0` to `9`.
pub open spec fn is_digit(c: char) -> bool {
    48 <= c as u32 && c as u32 <= 57
}

/// Whether `s` shows a year: four digits, or a sign followed by at least
/// four digits.
pub open spec fn is_year(s: Seq<char>) -> bool {
    ||| s.len() == 4 && forall|i: int| 0 <= i < s.len() ==> is_digit(#[trigger] s[i])
    ||| s.len() >= 5 && (s[0] == '+' || s[0] == '-') && forall|i: int|
        1 <= i < s.len() ==> is_digit(#[trigger] s[i])
}

/// Whether `s` shows month, day, hour, minute and second behind a year:
/// the sixteen characters `-MM-DD--HH-MM-SS`, each letter a digit.
pub open spec fn is_month_to_second(s: Seq<char>) -> bool {
    &&& s.len() == 16
    &&& s[0] == '-' && is_digit(s[1]) && is_digit(s[2])
    &&& s[3] == '-' && is_digit(s[4]) && is_digit(s[5])
    &&& s[6] == '-' && s[7] == '-' && is_digit(s[8]) && is_digit(s[9])
    &&& s[10] == '-' && is_digit(s[11]) && is_digit(s[12])
    &&& s[13] == '-' && is_digit(s[14]) && is_digit(s[15])
}

/// Whether `s` shows a date and a time in the form `YYYY-MM-DD--HH-MM-SS`:
/// a year, and month, day, hour, minute and second of two digits each.
pub open spec fn is_stamp(s: Seq<char>) -> bool {
    &&& s.len() >= 20
    &&& is_year(s.subrange(0, s.len() - 16))
    &&& is_month_to_second(s.subrange(s.len() - 16, s.len() as int))
}

/// The five texts of a dump.
pub struct StateDump {
    /// The registers, from register 0 on.
    pub registers: Vec<u8>,
    /// The stack, from the bottom up.
    pub stack: Vec<u8>,
    /// The program counter.
    pub program_counter: Vec<u8>,
    /// The number of steps.
    pub step_number: Vec<u8>,
    /// The words of memory, from word 0 on.
    pub memory: Vec<u8>,
}

/// Appends the decimal digits of `n` to `out`.
fn push_decimal(out: &mut Vec<u8>, n: u64)
    ensures
        final(out)@ == old(out)@ + decimal(n as nat),
    decreases n,
{
    if n >= 10 {
        push_decimal(out, n / 10);
    }
    out.push(48 + (n % 10) as u8);
}

/// Appends the line that shows `n` to `out`.
fn push_line(out: &mut Vec<u8>, n: u64)
    ensures
        final(out)@ == old(out)@ + line_of(n as nat),
{
    push_decimal(out, n);
    out.push(10);
}

/// The text that shows `values`: one decimal number on each line.
pub fn render_lines(values: &[u16]) -> (text: Vec<u8>)
    ensures
        text@ == lines_of(values@),
{
    let mut text: Vec<u8> = Vec::new();
    let mut i: usize = 0;
    while i < values.len()
        invariant
            i <= values.len(),
            text@ == lines_of(values@.take(i as int)),
        decreases values.len() - i,
    {
        proof {
            assert(values@.take(i + 1).drop_last() == values@.take(i as int));
        }
        push_line(&mut text, values[i] as u64);
        i = i + 1;
    }
    assert(values@.take(i as int) == values@);
    text
}

/// The five texts that show the state of `vm`. The machine is not changed.
pub fn dump_state(vm: &VM) -> (dump: StateDump)
    ensures
        dump.registers@ == lines_of(vm@.registers),
        dump.stack@ == lines_of(vm@.stack),
        dump.program_counter@ == line_of(vm@.pc as nat),
        dump.step_number@ == line_of(vm@.steps as nat),
        dump.memory@ == lines_of(vm@.memory),
{
    let mut program_counter: Vec<u8> = Vec::new();
    push_line(&mut program_counter, vm.program_counter() as u64);
    let mut step_number: Vec<u8> = Vec::new();
    push_line(&mut step_number, vm.step_count());
    StateDump {
        registers: render_lines(vm.registers().as_slice()),
        stack: render_lines(vm.stack().as_slice()),
        program_counter,
        step_number,
        memory: render_lines(vm.memory().as_slice()),
    }
}

/// Appends `tail` to `text`.
///
/// This is `String::push_str` of the standard library, which is taken on
/// trust to append the characters of `tail` to those of `text`.
#[verifier::external_body]
fn push_str(text: &mut String, tail: &str)
    ensures
        final(text)@ == old(text)@ + tail@,
{
    text.push_str(tail)
}

/// The local date and time of this moment, written as `pattern` says.
///
/// This is `chrono`'s `Local::now` followed by `DateTime::format` and the
/// conversion of what it gives to a `String`. Which date and time come out
/// depends on the clock and the time zone of the machine, so of them
/// nothing is claimed. What is taken on trust is the form of the result
/// under the one pattern that the precondition admits: `chrono` writes the
/// year with four digits, or with a sign and at least four digits where it
/// lies outside 0 to 9999, and month, day, hour, minute and second with two
/// digits each, and copies the hyphens of the pattern.
///
/// The conversion panics on a pattern that `chrono` does not understand,
/// which the precondition leaves out. The call also unwinds on a machine
/// whose clock stands before the year 1970 or whose time zone cannot be
/// applied; no precondition can speak of the clock.
#[verifier::external_body]
fn local_time(pattern: &str) -> (stamp: String)
    requires
        pattern@ == "%Y-%m-%d--%H-%M-%S"@,
    ensures
        is_stamp(stamp@),
{
    chrono::Local::now().format(pattern).to_string()
}

/// The name of the directory for the dump that was made at the time that
/// `stamp` shows: `dump/`, the stamp, and `/`.
pub fn dump_directory(stamp: &str) -> (dir: String)
    ensures
        dir@ == directory_of(stamp@),
{
    let mut dir = "dump/".to_owned();
    push_str(&mut dir, stamp);
    push_str(&mut dir, "/");
    dir
}

/// The name of the directory for a dump that is made now: `dump/`, the
/// local date and time in the form `YYYY-MM-DD--HH-MM-SS`, and `/`.
pub fn dump_directory_now() -> (dir: String)
    ensures
        exists|stamp: Seq<char>| is_stamp(stamp) && dir@ == directory_of(stamp),
        dir@.len() >= 26,
{
    let stamp = local_time("%Y-%m-%d--%H-%M-%S");
    proof {
        reveal_strlit("dump/");
        reveal_strlit("/");
    }
    dump_directory(stamp.as_str())
}

} // verus!
