use vstd::prelude::*;

use crate::action::Action;
use crate::arg::Arg;
use crate::machine::Machine;
use crate::semantics::{spec_fetch, spec_write_addr, VmView};
use crate::ExecError;

verus! {

/// An instruction decides *what* should change and how far the program
/// counter moves; it never mutates the machine. `action` receives a
/// read-only view of the machine (memory reads, current counter, current
/// base) and returns the effect descriptor; the engine alone applies it.
/// The effect is a pure function of the machine state, stated by
/// `spec_action`, so an implementation cannot bypass the state machine.
pub trait OpCode {
    /// The effect this instruction asks for, as a function of machine state.
    spec fn spec_action(&self, s: VmView) -> Result<Action, ExecError>;

    /// How many cells the program counter advances once the effect is
    /// applied; jump and halt instructions manage the counter themselves
    /// and declare 0.
    spec fn spec_advance(&self) -> i64;

    fn action(&self, comp: &Machine) -> (r: Result<Action, ExecError>)
        ensures
            r == self.spec_action(comp@),
    ;

    fn advance(&self) -> (n: i64)
        ensures
            n == self.spec_advance(),
    ;
}

#[derive(Clone, Copy, Debug, PartialEq, Eq, Structural)]
pub struct Add {
    pub a: Arg,
    pub b: Arg,
    pub out: Arg,
}

impl OpCode for Add {
    open spec fn spec_action(&self, s: VmView) -> Result<Action, ExecError> {
        match spec_fetch(s, self.a) {
            Err(e) => Err(e),
            Ok(x) => match spec_fetch(s, self.b) {
                Err(e) => Err(e),
                Ok(y) => if i64::MIN <= x + y <= i64::MAX {
                    match spec_write_addr(self.out, s.rb) {
                        Err(e) => Err(e),
                        Ok(addr) => Ok(Action::SetMem { val: (x + y) as i64, addr }),
                    }
                } else {
                    Err(ExecError::Overflow)
                },
            },
        }
    }

    open spec fn spec_advance(&self) -> i64 {
        4
    }

    fn action(&self, comp: &Machine) -> Result<Action, ExecError> {
        let x = comp.fetch(&self.a)?;
        let y = comp.fetch(&self.b)?;
        let val = match x.checked_add(y) {
            Some(v) => v,
            None => {
                return Err(ExecError::Overflow);
            },
        };
        let addr = comp.write_addr(&self.out)?;
        Ok(Action::SetMem { val, addr })
    }

    fn advance(&self) -> i64 {
        4
    }
}

#[derive(Clone, Copy, Debug, PartialEq, Eq, Structural)]
pub struct Mul {
    pub a: Arg,
    pub b: Arg,
    pub out: Arg,
}

impl OpCode for Mul {
    open spec fn spec_action(&self, s: VmView) -> Result<Action, ExecError> {
        match spec_fetch(s, self.a) {
            Err(e) => Err(e),
            Ok(x) => match spec_fetch(s, self.b) {
                Err(e) => Err(e),
                Ok(y) => if i64::MIN <= x * y <= i64::MAX {
                    match spec_write_addr(self.out, s.rb) {
                        Err(e) => Err(e),
                        Ok(addr) => Ok(Action::SetMem { val: (x * y) as i64, addr }),
                    }
                } else {
                    Err(ExecError::Overflow)
                },
            },
        }
    }

    open spec fn spec_advance(&self) -> i64 {
        4
    }

    fn action(&self, comp: &Machine) -> Result<Action, ExecError> {
        let x = comp.fetch(&self.a)?;
        let y = comp.fetch(&self.b)?;
        let val = match x.checked_mul(y) {
            Some(v) => v,
            None => {
                return Err(ExecError::Overflow);
            },
        };
        let addr = comp.write_addr(&self.out)?;
        Ok(Action::SetMem { val, addr })
    }

    fn advance(&self) -> i64 {
        4
    }
}

#[derive(Clone, Copy, Debug, PartialEq, Eq, Structural)]
pub struct Read {
    pub to: Arg,
}

impl OpCode for Read {
    open spec fn spec_action(&self, s: VmView) -> Result<Action, ExecError> {
        match spec_write_addr(self.to, s.rb) {
            Err(e) => Err(e),
            Ok(to) => Ok(Action::Read { to }),
        }
    }

    open spec fn spec_advance(&self) -> i64 {
        2
    }

    fn action(&self, comp: &Machine) -> Result<Action, ExecError> {
        let to = comp.write_addr(&self.to)?;
        Ok(Action::Read { to })
    }

    fn advance(&self) -> i64 {
        2
    }
}

#[derive(Clone, Copy, Debug, PartialEq, Eq, Structural)]
pub struct Write {
    pub val: Arg,
}

impl OpCode for Write {
    open spec fn spec_action(&self, s: VmView) -> Result<Action, ExecError> {
        match spec_fetch(s, self.val) {
            Err(e) => Err(e),
            Ok(val) => Ok(Action::Write { val }),
        }
    }

    open spec fn spec_advance(&self) -> i64 {
        2
    }

    fn action(&self, comp: &Machine) -> Result<Action, ExecError> {
        let val = comp.fetch(&self.val)?;
        Ok(Action::Write { val })
    }

    fn advance(&self) -> i64 {
        2
    }
}

#[derive(Clone, Copy, Debug, PartialEq, Eq, Structural)]
pub struct JumpIfTrue {
    pub cond: Arg,
    pub to: Arg,
}

impl OpCode for JumpIfTrue {
    open spec fn spec_action(&self, s: VmView) -> Result<Action, ExecError> {
        match spec_fetch(s, self.cond) {
            Err(e) => Err(e),
            Ok(c) => if c != 0 {
                match spec_fetch(s, self.to) {
                    Err(e) => Err(e),
                    Ok(to) => Ok(Action::Jump { to }),
                }
            } else {
                if s.pc + 3 <= i64::MAX {
                    Ok(Action::Jump { to: (s.pc + 3) as i64 })
                } else {
                    Err(ExecError::Overflow)
                }
            },
        }
    }

    open spec fn spec_advance(&self) -> i64 {
        0
    }

    fn action(&self, comp: &Machine) -> Result<Action, ExecError> {
        let c = comp.fetch(&self.cond)?;
        if c != 0 {
            let to = comp.fetch(&self.to)?;
            Ok(Action::Jump { to })
        } else {
            match comp.pc().checked_add(3) {
                Some(to) => Ok(Action::Jump { to }),
                None => Err(ExecError::Overflow),
            }
        }
    }

    fn advance(&self) -> i64 {
        0
    }
}

#[derive(Clone, Copy, Debug, PartialEq, Eq, Structural)]
pub struct JumpIfFalse {
    pub cond: Arg,
    pub to: Arg,
}

impl OpCode for JumpIfFalse {
    open spec fn spec_action(&self, s: VmView) -> Result<Action, ExecError> {
        match spec_fetch(s, self.cond) {
            Err(e) => Err(e),
            Ok(c) => if c == 0 {
                match spec_fetch(s, self.to) {
                    Err(e) => Err(e),
                    Ok(to) => Ok(Action::Jump { to }),
                }
            } else {
                if s.pc + 3 <= i64::MAX {
                    Ok(Action::Jump { to: (s.pc + 3) as i64 })
                } else {
                    Err(ExecError::Overflow)
                }
            },
        }
    }

    open spec fn spec_advance(&self) -> i64 {
        0
    }

    fn action(&self, comp: &Machine) -> Result<Action, ExecError> {
        let c = comp.fetch(&self.cond)?;
        if c == 0 {
            let to = comp.fetch(&self.to)?;
            Ok(Action::Jump { to })
        } else {
            match comp.pc().checked_add(3) {
                Some(to) => Ok(Action::Jump { to }),
                None => Err(ExecError::Overflow),
            }
        }
    }

    fn advance(&self) -> i64 {
        0
    }
}

#[derive(Clone, Copy, Debug, PartialEq, Eq, Structural)]
pub struct LessThan {
    pub a: Arg,
    pub b: Arg,
    pub out: Arg,
}

impl OpCode for LessThan {
    open spec fn spec_action(&self, s: VmView) -> Result<Action, ExecError> {
        match spec_fetch(s, self.a) {
            Err(e) => Err(e),
            Ok(x) => match spec_fetch(s, self.b) {
                Err(e) => Err(e),
                Ok(y) => match spec_write_addr(self.out, s.rb) {
                    Err(e) => Err(e),
                    Ok(addr) => Ok(
                        Action::SetMem { val: if x < y { 1 } else { 0 }, addr },
                    ),
                },
            },
        }
    }

    open spec fn spec_advance(&self) -> i64 {
        4
    }

    fn action(&self, comp: &Machine) -> Result<Action, ExecError> {
        let x = comp.fetch(&self.a)?;
        let y = comp.fetch(&self.b)?;
        let val: i64 = if x < y { 1 } else { 0 };
        let addr = comp.write_addr(&self.out)?;
        Ok(Action::SetMem { val, addr })
    }

    fn advance(&self) -> i64 {
        4
    }
}

#[derive(Clone, Copy, Debug, PartialEq, Eq, Structural)]
pub struct Equals {
    pub a: Arg,
    pub b: Arg,
    pub out: Arg,
}

impl OpCode for Equals {
    open spec fn spec_action(&self, s: VmView) -> Result<Action, ExecError> {
        match spec_fetch(s, self.a) {
            Err(e) => Err(e),
            Ok(x) => match spec_fetch(s, self.b) {
                Err(e) => Err(e),
                Ok(y) => match spec_write_addr(self.out, s.rb) {
                    Err(e) => Err(e),
                    Ok(addr) => Ok(
                        Action::SetMem { val: if x == y { 1 } else { 0 }, addr },
                    ),
                },
            },
        }
    }

    open spec fn spec_advance(&self) -> i64 {
        4
    }

    fn action(&self, comp: &Machine) -> Result<Action, ExecError> {
        let x = comp.fetch(&self.a)?;
        let y = comp.fetch(&self.b)?;
        let val: i64 = if x == y { 1 } else { 0 };
        let addr = comp.write_addr(&self.out)?;
        Ok(Action::SetMem { val, addr })
    }

    fn advance(&self) -> i64 {
        4
    }
}

#[derive(Clone, Copy, Debug, PartialEq, Eq, Structural)]
pub struct UpdateRb {
    pub val: Arg,
}

impl OpCode for UpdateRb {
    open spec fn spec_action(&self, s: VmView) -> Result<Action, ExecError> {
        match spec_fetch(s, self.val) {
            Err(e) => Err(e),
            Ok(x) => if i64::MIN <= s.rb + x <= i64::MAX {
                Ok(Action::SetRb { val: (s.rb + x) as i64 })
            } else {
                Err(ExecError::Overflow)
            },
        }
    }

    open spec fn spec_advance(&self) -> i64 {
        2
    }

    fn action(&self, comp: &Machine) -> Result<Action, ExecError> {
        let x = comp.fetch(&self.val)?;
        match comp.rb().checked_add(x) {
            Some(val) => Ok(Action::SetRb { val }),
            None => Err(ExecError::Overflow),
        }
    }

    fn advance(&self) -> i64 {
        2
    }
}

#[derive(Clone, Copy, Debug, PartialEq, Eq, Structural)]
pub struct Halt {}

impl OpCode for Halt {
    open spec fn spec_action(&self, s: VmView) -> Result<Action, ExecError> {
        Ok(Action::Halt)
    }

    open spec fn spec_advance(&self) -> i64 {
        0
    }

    fn action(&self, comp: &Machine) -> Result<Action, ExecError> {
        Ok(Action::Halt)
    }

    fn advance(&self) -> i64 {
        0
    }
}

/// The closed instruction set, one variant per registered opcode. Decoding
/// yields one of these; the engine then asks it for its action and its
/// advance through the `OpCode` interface.
#[derive(Clone, Copy, Debug, PartialEq, Eq, Structural)]
pub enum Instr {
    Add(Add),
    Mul(Mul),
    Read(Read),
    Write(Write),
    JumpIfTrue(JumpIfTrue),
    JumpIfFalse(JumpIfFalse),
    LessThan(LessThan),
    Equals(Equals),
    UpdateRb(UpdateRb),
    Halt(Halt),
}

impl OpCode for Instr {
    open spec fn spec_action(&self, s: VmView) -> Result<Action, ExecError> {
        match self {
            Instr::Add(op) => op.spec_action(s),
            Instr::Mul(op) => op.spec_action(s),
            Instr::Read(op) => op.spec_action(s),
            Instr::Write(op) => op.spec_action(s),
            Instr::JumpIfTrue(op) => op.spec_action(s),
            Instr::JumpIfFalse(op) => op.spec_action(s),
            Instr::LessThan(op) => op.spec_action(s),
            Instr::Equals(op) => op.spec_action(s),
            Instr::UpdateRb(op) => op.spec_action(s),
            Instr::Halt(op) => op.spec_action(s),
        }
    }

    open spec fn spec_advance(&self) -> i64 {
        match self {
            Instr::Add(op) => op.spec_advance(),
            Instr::Mul(op) => op.spec_advance(),
            Instr::Read(op) => op.spec_advance(),
            Instr::Write(op) => op.spec_advance(),
            Instr::JumpIfTrue(op) => op.spec_advance(),
            Instr::JumpIfFalse(op) => op.spec_advance(),
            Instr::LessThan(op) => op.spec_advance(),
            Instr::Equals(op) => op.spec_advance(),
            Instr::UpdateRb(op) => op.spec_advance(),
            Instr::Halt(op) => op.spec_advance(),
        }
    }

    fn action(&self, comp: &Machine) -> Result<Action, ExecError> {
        match self {
            Instr::Add(op) => op.action(comp),
            Instr::Mul(op) => op.action(comp),
            Instr::Read(op) => op.action(comp),
            Instr::Write(op) => op.action(comp),
            Instr::JumpIfTrue(op) => op.action(comp),
            Instr::JumpIfFalse(op) => op.action(comp),
            Instr::LessThan(op) => op.action(comp),
            Instr::Equals(op) => op.action(comp),
            Instr::UpdateRb(op) => op.action(comp),
            Instr::Halt(op) => op.action(comp),
        }
    }

    fn advance(&self) -> i64 {
        match self {
            Instr::Add(op) => op.advance(),
            Instr::Mul(op) => op.advance(),
            Instr::Read(op) => op.advance(),
            Instr::Write(op) => op.advance(),
            Instr::JumpIfTrue(op) => op.advance(),
            Instr::JumpIfFalse(op) => op.advance(),
            Instr::LessThan(op) => op.advance(),
            Instr::Equals(op) => op.advance(),
            Instr::UpdateRb(op) => op.advance(),
            Instr::Halt(op) => op.advance(),
        }
    }
}

} // verus!
