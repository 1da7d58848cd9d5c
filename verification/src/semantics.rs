use vstd::prelude::*;

use crate::action::Action;
use crate::arg::Arg;
use crate::opcode::{
    Add, Equals, Halt, Instr, JumpIfFalse, JumpIfTrue, LessThan, Mul, OpCode, Read, UpdateRb,
    Write,
};
use crate::{ExecError, State};

verus! {

/// The mathematical state of one machine instance: the sparse memory, the
/// program counter, the base register, the pending input queue (front is
/// consumed first) and the append-only output sequence.
pub ghost struct VmView {
    pub mem: Map<i64, i64>,
    pub pc: i64,
    pub rb: i64,
    pub input: Seq<i64>,
    pub output: Seq<i64>,
}

/// The address space before anything was written.
pub open spec fn empty_mem() -> Map<i64, i64> {
    Map::empty()
}

/// Reading the sparse address space: an address never written holds zero.
pub open spec fn mem_read(m: Map<i64, i64>, at: i64) -> i64 {
    if m.contains_key(at) {
        m[at]
    } else {
        0
    }
}

/// The memory image a machine starts from: address `a` holds cell `a` of the
/// program for `0 <= a < len`, and nothing else was ever written.
pub open spec fn image_map(img: Seq<i64>) -> Map<i64, i64> {
    Map::new(|a: i64| 0 <= a < img.len(), |a: i64| img[a as int])
}

/// An address never written reads as zero; in particular every address
/// outside a fresh program image does.
pub proof fn lemma_memory_default(img: Seq<i64>, a: i64)
    requires
        !(0 <= a < img.len()),
    ensures
        mem_read(image_map(img), a) == 0,
{
}

pub open spec fn pow10(k: nat) -> int
    decreases k,
{
    if k == 0 {
        1
    } else {
        10 * pow10((k - 1) as nat)
    }
}

pub proof fn lemma_pow10_positive(k: nat)
    ensures
        pow10(k) >= 1,
    decreases k,
{
    if k > 0 {
        lemma_pow10_positive((k - 1) as nat);
    }
}

pub proof fn lemma_pow10_monotone(j: nat, k: nat)
    requires
        j <= k,
    ensures
        pow10(j) <= pow10(k),
    decreases k,
{
    lemma_pow10_positive(j);
    if j < k {
        lemma_pow10_monotone(j, (k - 1) as nat);
        lemma_pow10_positive((k - 1) as nat);
    }
}

/// Digit `k` of a nonnegative mode field, 0-indexed from the ones place:
/// digit 0 decides parameter 0, digit 1 parameter 1, and so on.
pub open spec fn mode_digit(modes: i64, k: nat) -> int
    recommends
        modes >= 0,
{
    ((modes as int) / pow10(k)) % 10
}

/// The machine a program starts on: the image loaded at address 0, both
/// registers zero, the given input pending, nothing written yet.
pub open spec fn init_view(img: Seq<i64>, inp: Seq<i64>) -> VmView {
    VmView { mem: image_map(img), pc: 0, rb: 0, input: inp, output: Seq::empty() }
}

/// Reading an argument: an Immediate is the literal itself, a Position
/// loads from the stored address, a Relative loads from the base register
/// plus the stored offset — the base at the moment of resolution. An offset
/// that leaves the address range is a fatal overflow.
pub open spec fn spec_fetch(s: VmView, a: Arg) -> Result<i64, ExecError> {
    match a {
        Arg::Immediate(val) => Ok(val),
        Arg::Position(val) => Ok(mem_read(s.mem, val)),
        Arg::Relative(val) => if i64::MIN <= s.rb + val <= i64::MAX {
            Ok(mem_read(s.mem, (s.rb + val) as i64))
        } else {
            Err(ExecError::Overflow)
        },
    }
}

/// Resolving an argument as a write destination: a Position argument names
/// the absolute address, a Relative argument the base register plus the
/// offset. An Immediate argument is no legal destination and resolves like
/// Position; no well-formed program reaches that case.
pub open spec fn spec_write_addr(a: Arg, rb: i64) -> Result<i64, ExecError> {
    match a {
        Arg::Relative(val) => if i64::MIN <= rb + val <= i64::MAX {
            Ok((rb + val) as i64)
        } else {
            Err(ExecError::Overflow)
        },
        Arg::Position(val) => Ok(val),
        Arg::Immediate(val) => Ok(val),
    }
}

/// The instruction a given opcode builds from the three decoded arguments.
/// An opcode outside the registered set is a fatal decode error.
pub open spec fn spec_build_instr(opcode: int, a0: Arg, a1: Arg, a2: Arg) -> Result<
    Instr,
    ExecError,
> {
    if opcode == 1 {
        Ok(Instr::Add(Add { a: a0, b: a1, out: a2 }))
    } else if opcode == 2 {
        Ok(Instr::Mul(Mul { a: a0, b: a1, out: a2 }))
    } else if opcode == 3 {
        Ok(Instr::Read(Read { to: a0 }))
    } else if opcode == 4 {
        Ok(Instr::Write(Write { val: a0 }))
    } else if opcode == 5 {
        Ok(Instr::JumpIfTrue(JumpIfTrue { cond: a0, to: a1 }))
    } else if opcode == 6 {
        Ok(Instr::JumpIfFalse(JumpIfFalse { cond: a0, to: a1 }))
    } else if opcode == 7 {
        Ok(Instr::LessThan(LessThan { a: a0, b: a1, out: a2 }))
    } else if opcode == 8 {
        Ok(Instr::Equals(Equals { a: a0, b: a1, out: a2 }))
    } else if opcode == 9 {
        Ok(Instr::UpdateRb(UpdateRb { val: a0 }))
    } else if opcode == 99 {
        Ok(Instr::Halt(Halt {}))
    } else {
        Err(ExecError::UnknownOpCode)
    }
}

/// Decoding the instruction at the program counter: the word's last two
/// decimal digits name the opcode, the digits above them the parameter
/// modes, and the next three cells are the parameters. All three mode
/// digits are validated whatever the opcode consumes, and a negative word
/// encodes no digits at all.
pub open spec fn spec_decode(s: VmView) -> Result<Instr, ExecError> {
    if s.pc + 3 > i64::MAX {
        Err(ExecError::Overflow)
    } else {
        let word = mem_read(s.mem, s.pc);
        if word < 0 {
            Err(ExecError::UnknownOpCode)
        } else {
            let opcode = (word as int) % 100;
            let modes = ((word as int) / 100) as i64;
            match Arg::spec_new(modes, 0, mem_read(s.mem, (s.pc + 1) as i64)) {
                Err(e) => Err(e),
                Ok(a0) => match Arg::spec_new(modes, 1, mem_read(s.mem, (s.pc + 2) as i64)) {
                    Err(e) => Err(e),
                    Ok(a1) => match Arg::spec_new(modes, 2, mem_read(s.mem, (s.pc + 3) as i64)) {
                        Err(e) => Err(e),
                        Ok(a2) => spec_build_instr(opcode, a0, a1, a2),
                    },
                },
            }
        }
    }
}

/// What one execution cycle yields: the machine advanced by one applied
/// instruction, a block on empty input (state untouched), a halt (state
/// untouched), or a fatal fault (state untouched).
pub ghost enum Step {
    Next(VmView),
    Waiting,
    Halted,
    Fault(ExecError),
}

/// Moving the program counter by the instruction's declared advance.
pub open spec fn advance_pc(s: VmView, adv: i64) -> Step {
    if i64::MIN <= s.pc + adv <= i64::MAX {
        Step::Next(VmView { pc: (s.pc + adv) as i64, ..s })
    } else {
        Step::Fault(ExecError::Overflow)
    }
}

/// Applying an effect descriptor to the machine state, then advancing the
/// program counter. A read from an empty input queue applies nothing and
/// blocks: the counter stays, so the same instruction is retried later.
pub open spec fn spec_apply(s: VmView, act: Action, adv: i64) -> Step {
    match act {
        Action::SetMem { val, addr } => advance_pc(VmView { mem: s.mem.insert(addr, val), ..s }, adv),
        Action::SetRb { val } => advance_pc(VmView { rb: val, ..s }, adv),
        Action::Read { to } => if s.input.len() == 0 {
            Step::Waiting
        } else {
            advance_pc(
                VmView { mem: s.mem.insert(to, s.input[0]), input: s.input.skip(1), ..s },
                adv,
            )
        },
        Action::Write { val } => advance_pc(VmView { output: s.output.push(val), ..s }, adv),
        Action::Jump { to } => advance_pc(VmView { pc: to, ..s }, adv),
        Action::Halt => Step::Halted,
    }
}

/// What one cycle reports: Running while the machine advanced, Waiting or
/// Halted when it stopped, the fault otherwise.
pub open spec fn step_result(st: Step) -> Result<State, ExecError> {
    match st {
        Step::Next(_) => Ok(State::Running),
        Step::Waiting => Ok(State::Waiting),
        Step::Halted => Ok(State::Halted),
        Step::Fault(e) => Err(e),
    }
}

/// The state one cycle leaves behind: only an applied instruction changes
/// it.
pub open spec fn step_state(st: Step, s: VmView) -> VmView {
    match st {
        Step::Next(s2) => s2,
        _ => s,
    }
}

/// One cycle against a given decoded instruction: evaluate its action, then
/// apply it.
pub open spec fn step_with(s: VmView, instr: Instr) -> Step {
    match instr.spec_action(s) {
        Err(e) => Step::Fault(e),
        Ok(act) => spec_apply(s, act, instr.spec_advance()),
    }
}

/// One full cycle: decode freshly from the current state, evaluate, apply.
/// Decoding freshly each cycle is what makes self-modifying programs see
/// their own writes at once.
#[verifier::opaque]
pub open spec fn step(s: VmView) -> Step {
    match spec_decode(s) {
        Err(e) => Step::Fault(e),
        Ok(instr) => step_with(s, instr),
    }
}

/// Running: steps repeated until the machine blocks, halts or faults, or
/// `fuel` steps have been taken, whichever comes first. The pair holds the
/// state after the run and the reported result; `Ok(Running)` is reported
/// exactly when the fuel ran out.
pub open spec fn spec_run(s: VmView, fuel: nat) -> (VmView, Result<State, ExecError>)
    decreases fuel,
{
    if fuel == 0 {
        (s, Ok(State::Running))
    } else {
        match step(s) {
            Step::Halted => (s, Ok(State::Halted)),
            Step::Waiting => (s, Ok(State::Waiting)),
            Step::Fault(e) => (s, Err(e)),
            Step::Next(s2) => spec_run(s2, (fuel - 1) as nat),
        }
    }
}

/// Mode decoding: an instruction word built as `modes * 100 + opcode`
/// splits back into exactly those two parts, so parameter `k` of such a
/// word is decoded under digit `k` of `modes` (0-indexed, ones digit
/// first), whatever the opcode.
pub proof fn lemma_mode_decoding(modes: i64, opcode: i64, k: u32, val: i64)
    requires
        modes >= 0,
        0 <= opcode < 100,
        100 * (modes as int) + (opcode as int) <= i64::MAX,
    ensures
        (100 * (modes as int) + (opcode as int)) / 100 == modes,
        (100 * (modes as int) + (opcode as int)) % 100 == opcode,
        Arg::spec_new(((100 * (modes as int) + (opcode as int)) / 100) as i64, k, val)
            == Arg::spec_new(modes, k, val),
        mode_digit(((100 * (modes as int) + (opcode as int)) / 100) as i64, k as nat)
            == mode_digit(modes, k as nat),
{
    vstd::arithmetic::div_mod::lemma_fundamental_div_mod_converse(
        100 * (modes as int) + (opcode as int),
        100,
        modes as int,
        opcode as int,
    );
}

/// Relative addressing is base-dynamic: once an adjust-base instruction
/// (opcode 9, here with an immediate parameter `d`) has executed, a
/// Relative argument resolves — for reading and as a write destination —
/// against the adjusted base, not against the base that held when the
/// adjustment was decoded.
pub proof fn lemma_relative_after_adjust(s: VmView, d: i64, off: i64)
    requires
        mem_read(s.mem, s.pc) == 109,
        s.pc + 3 <= i64::MAX,
        mem_read(s.mem, (s.pc + 1) as i64) == d,
        i64::MIN <= s.rb + d <= i64::MAX,
    ensures
        (step(s) matches Step::Next(s2) && {
            &&& s2.rb == s.rb + d
            &&& s2.mem == s.mem
            &&& s2.pc == s.pc + 2
            &&& s2.input == s.input
            &&& s2.output == s.output
            &&& (i64::MIN <= s.rb + d + off <= i64::MAX ==> {
                &&& (spec_fetch(s2, Arg::Relative(off)) matches Ok(v) && v == mem_read(
                    s.mem,
                    (s.rb + d + off) as i64,
                ))
                &&& (spec_write_addr(Arg::Relative(off), s2.rb) matches Ok(a) && a == (s.rb + d
                    + off) as i64)
            })
        }),
{
    reveal(step);
    assert(pow10(0) == 1);
    assert(pow10(1) == 10);
    assert(pow10(2) == 100);
}

/// Blocking on input is idempotent and non-destructive: while the current
/// instruction is a read and the input queue is empty, a run — however
/// much fuel it is given — reports Waiting and leaves the whole machine
/// state exactly as it was, so the same instruction is retried next time.
pub proof fn lemma_waiting_is_stable(s: VmView, fuel: nat)
    requires
        step(s) is Waiting,
        fuel > 0,
    ensures
        spec_run(s, fuel).0 == s,
        (spec_run(s, fuel).1 matches Ok(st) && st == State::Waiting),
{
}

/// A machine blocks exactly when its current instruction decodes to a read
/// whose write destination resolves, and the input queue is empty.
pub proof fn lemma_read_blocks(s: VmView)
    ensures
        step(s) is Waiting <==> (spec_decode(s) matches Ok(i) && i matches Instr::Read(rd)
            && s.input.len() == 0 && spec_write_addr(rd.to, s.rb) is Ok),
{
    reveal(step);
}

/// A halted machine is halted for good: once the current instruction is a
/// halt, any further run reports Halted and changes nothing.
pub proof fn lemma_halted_is_terminal(s: VmView, fuel: nat)
    requires
        step(s) is Halted,
        fuel > 0,
    ensures
        spec_run(s, fuel).0 == s,
        (spec_run(s, fuel).1 matches Ok(st) && st == State::Halted),
{
}

/// There is no instruction cache: what decodes is a function of the four
/// cells at the program counter as they stand on this very cycle, so a
/// program that has rewritten its own forthcoming instruction cells is
/// decoded from the rewritten cells.
pub proof fn lemma_decode_reads_current_cells(s1: VmView, s2: VmView)
    requires
        s1.pc == s2.pc,
        mem_read(s1.mem, s1.pc) == mem_read(s2.mem, s2.pc),
        s1.pc + 3 <= i64::MAX ==> {
            &&& mem_read(s1.mem, (s1.pc + 1) as i64) == mem_read(s2.mem, (s2.pc + 1) as i64)
            &&& mem_read(s1.mem, (s1.pc + 2) as i64) == mem_read(s2.mem, (s2.pc + 2) as i64)
            &&& mem_read(s1.mem, (s1.pc + 3) as i64) == mem_read(s2.mem, (s2.pc + 3) as i64)
        },
    ensures
        spec_decode(s1) == spec_decode(s2),
{
}

/// The non-mutating status probe: decode the current instruction without
/// executing it. Halt reports Halted; Read reports Waiting exactly when
/// the input queue is empty, else Running; everything else Running.
pub open spec fn spec_peek(s: VmView) -> Result<State, ExecError> {
    match spec_decode(s) {
        Err(e) => Err(e),
        Ok(instr) => Ok(
            match instr {
                Instr::Halt(_) => State::Halted,
                Instr::Read(_) => if s.input.len() == 0 {
                    State::Waiting
                } else {
                    State::Running
                },
                _ => State::Running,
            },
        ),
    }
}

} // verus!
