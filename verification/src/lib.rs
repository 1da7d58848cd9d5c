use vstd::prelude::*;

pub mod action;
pub mod arg;
pub mod machine;
pub mod memory;
pub mod opcode;
pub mod semantics;

use crate::semantics::{mem_read, spec_peek, spec_run, VmView};

verus! {

/// The run state that the execution engine reports.
///
/// `Running` means the machine can make progress, `Waiting` that it is
/// blocked on an empty input queue at a read instruction (fully recoverable
/// by pushing input), and `Halted` that the halt instruction was executed
/// (terminal).
#[derive(Clone, Copy, Debug, PartialEq, Eq, Structural)]
pub enum State {
    Running,
    Waiting,
    Halted,
}

/// How a parameter's stored integer is interpreted: as an absolute address,
/// as the literal value itself, or as an offset from the base register.
#[derive(Clone, Copy, Debug, PartialEq, Eq, Structural)]
pub enum ParamMode {
    Position,
    Immediate,
    Relative,
}

/// The unrecoverable faults of a single machine instance.
///
/// `UnknownOpCode` is reported for an instruction word whose opcode digit
/// pair names no instruction (every negative word falls under this, since no
/// negative word encodes digits); `UnknownParamMode` for a parameter-mode
/// digit other than 0, 1 or 2; `Overflow` for an address or arithmetic
/// result that leaves the signed 64-bit range.
#[derive(Clone, Copy, Debug, PartialEq, Eq, Structural)]
pub enum ExecError {
    UnknownOpCode,
    UnknownParamMode,
    Overflow,
}

/// The driver-facing face of a machine instance. A driver may hold several
/// independent instances, advance each with `run`, route outputs into
/// another instance's queue with `push`, and poll liveness with `state`
/// without forcing a step.
pub trait IntCodeComputer {
    /// The mathematical state of the machine.
    spec fn vm(&self) -> VmView;

    /// Runs until the machine halts, blocks on an empty input queue at a
    /// read instruction, or faults. A blocked machine resumes exactly where
    /// it left off once input is pushed and `run` is called again. The run
    /// is bounded by `u64::MAX` applied instructions; only if that bound is
    /// exhausted first is Running reported.
    fn run(&mut self) -> (r: Result<State, ExecError>)
        ensures
            final(self).vm() == spec_run(old(self).vm(), u64::MAX as nat).0,
            r == spec_run(old(self).vm(), u64::MAX as nat).1,
    ;

    /// The output sequence: append-only, never consumed internally.
    fn out(&self) -> (o: &Vec<i64>)
        ensures
            o@ == self.vm().output,
    ;

    /// Appends a value to the back of the input queue. Always succeeds,
    /// whether the machine is Running, Waiting or Halted, and changes
    /// nothing else.
    fn push(&mut self, val: i64)
        ensures
            final(self).vm() == (VmView {
                input: old(self).vm().input.push(val),
                ..old(self).vm()
            }),
    ;

    /// Reads a memory cell; an address never written holds zero.
    fn mem(&self, at: i64) -> (r: i64)
        ensures
            r == mem_read(self.vm().mem, at),
    ;

    /// The non-mutating status probe: decodes the current instruction
    /// without executing it. A halt instruction reports Halted; a read
    /// instruction reports Waiting exactly when the input queue is empty;
    /// everything else reports Running.
    fn state(&self) -> (r: Result<State, ExecError>)
        ensures
            r == spec_peek(self.vm()),
    ;
}

} // verus!
