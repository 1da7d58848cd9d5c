use vstd::prelude::*;

verus! {

/// The closed set of effect descriptors an instruction returns instead of
/// mutating the machine directly: the instruction decides *what* should
/// happen, the engine alone performs the mutation. Each action is produced
/// once per instruction evaluation and consumed exactly once by the apply
/// step.
#[derive(Clone, Copy, Debug, PartialEq, Eq, Structural)]
pub enum Action {
    /// Write `val` into memory at `addr`.
    SetMem { val: i64, addr: i64 },
    /// Replace the base register with `val`.
    SetRb { val: i64 },
    /// Consume one input value into memory at `to`; with an empty input
    /// queue this blocks instead (the machine reports Waiting and the
    /// instruction is retried).
    Read { to: i64 },
    /// Append `val` to the output sequence.
    Write { val: i64 },
    /// Set the program counter to `to`.
    Jump { to: i64 },
    /// Stop the machine for good.
    Halt,
}

} // verus!
