use vstd::prelude::*;

use crate::semantics::{lemma_pow10_monotone, lemma_pow10_positive, mode_digit, pow10};
use crate::{ExecError, ParamMode};

verus! {

/// A parameter value paired with its addressing mode.
#[derive(Clone, Copy, Debug, PartialEq, Eq, Structural)]
pub enum Arg {
    Immediate(i64),
    Position(i64),
    Relative(i64),
}

/// What an argument resolves to when it is read: the literal value itself,
/// or the absolute address to load from.
#[derive(Clone, Copy, Debug, PartialEq, Eq, Structural)]
pub enum Value {
    Literal(i64),
    Pointer(i64),
}

/// 10 to the power `pos`, computed in a machine word.
fn pow10_u64(pos: u32) -> (r: u64)
    requires
        pos <= 18,
    ensures
        r == pow10(pos as nat),
{
    let mut r: u64 = 1;
    let mut i: u32 = 0;
    while i < pos
        invariant
            i <= pos,
            pos <= 18,
            r == pow10(i as nat),
        decreases pos - i,
    {
        proof {
            lemma_pow10_positive(i as nat);
            lemma_pow10_monotone(i as nat, 17);
            assert(pow10(17) == 100_000_000_000_000_000) by {
                reveal_with_fuel(pow10, 19);
            };
        }
        r = r * 10;
        i = i + 1;
    }
    r
}

impl Arg {
    pub open spec fn spec_mode(&self) -> ParamMode {
        match *self {
            Arg::Immediate(_) => ParamMode::Immediate,
            Arg::Position(_) => ParamMode::Position,
            Arg::Relative(_) => ParamMode::Relative,
        }
    }

    /// The addressing mode of this argument.
    #[verifier::when_used_as_spec(spec_mode)]
    pub fn mode(&self) -> (m: ParamMode)
        ensures
            m == self.spec_mode(),
    {
        match *self {
            Arg::Immediate(_) => ParamMode::Immediate,
            Arg::Position(_) => ParamMode::Position,
            Arg::Relative(_) => ParamMode::Relative,
        }
    }

    pub open spec fn spec_val(&self) -> i64 {
        match *self {
            Arg::Immediate(val) => val,
            Arg::Position(val) => val,
            Arg::Relative(val) => val,
        }
    }

    /// The parameter value as stored, whatever the mode.
    #[verifier::when_used_as_spec(spec_val)]
    pub fn val(&self) -> (v: i64)
        ensures
            v == self.spec_val(),
    {
        match *self {
            Arg::Immediate(val) => val,
            Arg::Position(val) => val,
            Arg::Relative(val) => val,
        }
    }

    pub open spec fn spec_out(&self, rb: i64) -> Arg {
        match *self {
            Arg::Relative(val) => Arg::Immediate((rb + val) as i64),
            _ => Arg::Immediate(self.spec_val()),
        }
    }

    /// The write-destination form of the argument: an Immediate holding the
    /// absolute address to write. A Relative argument resolves against the
    /// base register handed in, so the base at the moment of resolution
    /// decides the address; a Position argument resolves to its stored
    /// value. An Immediate argument is no legal destination; it is resolved
    /// here like Position, and no well-formed program reaches that case.
    #[verifier::when_used_as_spec(spec_out)]
    pub fn out(&self, rb: i64) -> (r: Arg)
        requires
            (*self matches Arg::Relative(val) ==> i64::MIN <= rb + val <= i64::MAX),
        ensures
            r == self.spec_out(rb),
    {
        match *self {
            Arg::Relative(val) => Arg::Immediate(rb + val),
            _ => Arg::Immediate(self.val()),
        }
    }

    pub open spec fn spec_get(&self, rb: i64) -> Value {
        match *self {
            Arg::Immediate(val) => Value::Literal(val),
            Arg::Position(val) => Value::Pointer(val),
            Arg::Relative(val) => Value::Pointer((rb + val) as i64),
        }
    }

    /// The read resolution of the argument against the base register handed
    /// in: a literal for Immediate, an absolute address for Position, the
    /// base plus the offset for Relative.
    #[verifier::when_used_as_spec(spec_get)]
    pub fn get(&self, rb: i64) -> (r: Value)
        requires
            (*self matches Arg::Relative(val) ==> i64::MIN <= rb + val <= i64::MAX),
        ensures
            r == self.spec_get(rb),
    {
        match *self {
            Arg::Immediate(val) => Value::Literal(val),
            Arg::Position(val) => Value::Pointer(val),
            Arg::Relative(val) => Value::Pointer(rb + val),
        }
    }

    pub open spec fn spec_new(modes: i64, pos: u32, val: i64) -> Result<Arg, ExecError> {
        if modes < 0 {
            Err(ExecError::UnknownParamMode)
        } else {
            let d = mode_digit(modes, pos as nat);
            if d == 0 {
                Ok(Arg::Position(val))
            } else if d == 1 {
                Ok(Arg::Immediate(val))
            } else if d == 2 {
                Ok(Arg::Relative(val))
            } else {
                Err(ExecError::UnknownParamMode)
            }
        }
    }

    /// Builds the argument for parameter `pos` of an instruction whose mode
    /// field is `modes`: digit `pos` of `modes` (0-indexed, ones digit
    /// first) picks the mode of `val`. Any digit other than 0, 1 or 2 is a
    /// fatal addressing-mode error, and a negative mode field encodes no
    /// digits at all.
    pub fn new(modes: i64, pos: u32, val: i64) -> (r: Result<Arg, ExecError>)
        requires
            pos <= 18,
        ensures
            r == Arg::spec_new(modes, pos, val),
    {
        if modes < 0 {
            return Err(ExecError::UnknownParamMode);
        }
        let divisor = pow10_u64(pos);
        proof {
            lemma_pow10_positive(pos as nat);
        }
        let d = ((modes as u64) / divisor) % 10;
        if d == 0 {
            Ok(Arg::Position(val))
        } else if d == 1 {
            Ok(Arg::Immediate(val))
        } else if d == 2 {
            Ok(Arg::Relative(val))
        } else {
            Err(ExecError::UnknownParamMode)
        }
    }
}

} // verus!
