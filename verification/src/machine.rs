use vstd::prelude::*;

use crate::action::Action;
use crate::arg::{Arg, Value};
use crate::memory::Memory;
use crate::opcode::{
    Add, Equals, Halt, Instr, JumpIfFalse, JumpIfTrue, LessThan, Mul, OpCode, Read, UpdateRb,
    Write,
};
use crate::semantics::{
    image_map, init_view, spec_decode, spec_fetch, spec_run, spec_write_addr, step, step_result,
    step_state, step_with, Step, VmView,
};
use crate::{ExecError, IntCodeComputer, State};

verus! {

/// One machine instance: it owns the sparse memory, the program counter,
/// the base register and the two I/O queues, and reports its run state.
pub struct Machine {
    memory: Memory,
    pc: i64,
    rb: i64,
    inputs: Vec<i64>,
    outputs: Vec<i64>,
}

impl View for Machine {
    type V = VmView;

    closed spec fn view(&self) -> VmView {
        VmView {
            mem: self.memory@,
            pc: self.pc,
            rb: self.rb,
            input: self.inputs@,
            output: self.outputs@,
        }
    }
}

impl Machine {
    /// Builds a machine from a program image (cell `a` of the image is
    /// loaded at address `a`) and an initial input queue.
    pub fn new(image: Vec<i64>, inputs: Vec<i64>) -> (m: Machine)
        requires
            image@.len() <= i64::MAX,
        ensures
            m@ == init_view(image@, inputs@),
    {
        let mut memory = Memory::new();
        let mut k: usize = 0;
        while k < image.len()
            invariant
                k <= image@.len(),
                image@.len() <= i64::MAX,
                memory@ == image_map(image@.take(k as int)),
            decreases image@.len() - k,
        {
            memory.write(k as i64, image[k]);
            proof {
                assert(memory@ =~= image_map(image@.take(k + 1)));
            }
            k = k + 1;
        }
        proof {
            assert(image@.take(image@.len() as int) =~= image@);
        }
        Machine { memory, pc: 0, rb: 0, inputs, outputs: Vec::new() }
    }

    /// The current program counter.
    pub fn pc(&self) -> (r: i64)
        ensures
            r == self@.pc,
    {
        self.pc
    }

    /// The current base register.
    pub fn rb(&self) -> (r: i64)
        ensures
            r == self@.rb,
    {
        self.rb
    }

    /// Reads an argument against the current machine state.
    pub fn fetch(&self, arg: &Arg) -> (r: Result<i64, ExecError>)
        ensures
            r == spec_fetch(self@, *arg),
    {
        if let Arg::Relative(val) = *arg {
            if self.rb.checked_add(val).is_none() {
                return Err(ExecError::Overflow);
            }
        }
        match arg.get(self.rb) {
            Value::Literal(val) => Ok(val),
            Value::Pointer(addr) => Ok(self.memory.read(addr)),
        }
    }

    /// Resolves a write destination against the current base register.
    pub fn write_addr(&self, arg: &Arg) -> (r: Result<i64, ExecError>)
        ensures
            r == spec_write_addr(*arg, self@.rb),
    {
        if let Arg::Relative(val) = *arg {
            if self.rb.checked_add(val).is_none() {
                return Err(ExecError::Overflow);
            }
        }
        Ok(arg.out(self.rb).val())
    }

    /// Decodes the instruction at the program counter: the opcode from the
    /// word's last two decimal digits, the three arguments from the next
    /// cells with their mode digits. Nothing is cached: every call reads
    /// the memory as it stands now.
    pub fn decode(&self) -> (r: Result<Instr, ExecError>)
        ensures
            r == spec_decode(self@),
    {
        if self.pc > i64::MAX - 3 {
            return Err(ExecError::Overflow);
        }
        let word = self.memory.read(self.pc);
        if word < 0 {
            return Err(ExecError::UnknownOpCode);
        }
        let opcode = ((word as u64) % 100) as i64;
        let modes = ((word as u64) / 100) as i64;
        let a0 = match Arg::new(modes, 0, self.memory.read(self.pc + 1)) {
            Ok(a) => a,
            Err(e) => {
                return Err(e);
            },
        };
        let a1 = match Arg::new(modes, 1, self.memory.read(self.pc + 2)) {
            Ok(a) => a,
            Err(e) => {
                return Err(e);
            },
        };
        let a2 = match Arg::new(modes, 2, self.memory.read(self.pc + 3)) {
            Ok(a) => a,
            Err(e) => {
                return Err(e);
            },
        };
        match opcode {
            1 => Ok(Instr::Add(Add { a: a0, b: a1, out: a2 })),
            2 => Ok(Instr::Mul(Mul { a: a0, b: a1, out: a2 })),
            3 => Ok(Instr::Read(Read { to: a0 })),
            4 => Ok(Instr::Write(Write { val: a0 })),
            5 => Ok(Instr::JumpIfTrue(JumpIfTrue { cond: a0, to: a1 })),
            6 => Ok(Instr::JumpIfFalse(JumpIfFalse { cond: a0, to: a1 })),
            7 => Ok(Instr::LessThan(LessThan { a: a0, b: a1, out: a2 })),
            8 => Ok(Instr::Equals(Equals { a: a0, b: a1, out: a2 })),
            9 => Ok(Instr::UpdateRb(UpdateRb { val: a0 })),
            99 => Ok(Instr::Halt(Halt {})),
            _ => Err(ExecError::UnknownOpCode),
        }
    }

    /// One apply step: evaluates the instruction's action against the
    /// current state and performs the described mutation, then advances the
    /// program counter by the instruction's declared width. A read from an
    /// empty input queue mutates nothing and reports Waiting, so the same
    /// instruction is retried once input arrives; a fault mutates nothing
    /// either.
    pub fn execute(&mut self, instr: &Instr) -> (r: Result<State, ExecError>)
        ensures
            final(self)@ == step_state(step_with(old(self)@, *instr), old(self)@),
            r == step_result(step_with(old(self)@, *instr)),
    {
        let act = match instr.action(self) {
            Ok(a) => a,
            Err(e) => {
                return Err(e);
            },
        };
        let adv = instr.advance();
        match act {
            Action::SetMem { val, addr } => {
                let new_pc = match self.pc.checked_add(adv) {
                    Some(p) => p,
                    None => {
                        return Err(ExecError::Overflow);
                    },
                };
                self.memory.write(addr, val);
                self.pc = new_pc;
                Ok(State::Running)
            },
            Action::SetRb { val } => {
                let new_pc = match self.pc.checked_add(adv) {
                    Some(p) => p,
                    None => {
                        return Err(ExecError::Overflow);
                    },
                };
                self.rb = val;
                self.pc = new_pc;
                Ok(State::Running)
            },
            Action::Read { to } => {
                if self.inputs.len() == 0 {
                    return Ok(State::Waiting);
                }
                let new_pc = match self.pc.checked_add(adv) {
                    Some(p) => p,
                    None => {
                        return Err(ExecError::Overflow);
                    },
                };
                let data = self.inputs.remove(0);
                self.memory.write(to, data);
                self.pc = new_pc;
                proof {
                    assert(self.inputs@ =~= old(self).inputs@.skip(1));
                }
                Ok(State::Running)
            },
            Action::Write { val } => {
                let new_pc = match self.pc.checked_add(adv) {
                    Some(p) => p,
                    None => {
                        return Err(ExecError::Overflow);
                    },
                };
                self.outputs.push(val);
                self.pc = new_pc;
                Ok(State::Running)
            },
            Action::Jump { to } => {
                let new_pc = match to.checked_add(adv) {
                    Some(p) => p,
                    None => {
                        return Err(ExecError::Overflow);
                    },
                };
                self.pc = new_pc;
                Ok(State::Running)
            },
            Action::Halt => Ok(State::Halted),
        }
    }

    /// One full fetch-decode-evaluate-apply cycle.
    fn step_once(&mut self) -> (r: Result<State, ExecError>)
        ensures
            final(self)@ == step_state(step(old(self)@), old(self)@),
            r == step_result(step(old(self)@)),
    {
        proof {
            reveal(step);
        }
        let instr = match self.decode() {
            Ok(i) => i,
            Err(e) => {
                return Err(e);
            },
        };
        self.execute(&instr)
    }

    /// Runs until the machine blocks on input, halts or faults, or `fuel`
    /// steps have been taken; Running is reported exactly when the fuel ran
    /// out first.
    #[verifier::loop_isolation(false)]
    pub fn run_for(&mut self, fuel: u64) -> (r: Result<State, ExecError>)
        ensures
            final(self)@ == spec_run(old(self)@, fuel as nat).0,
            r == spec_run(old(self)@, fuel as nat).1,
    {
        let ghost orig = self@;
        let mut remaining: u64 = fuel;
        loop
            invariant
                spec_run(orig, fuel as nat) == spec_run(self@, remaining as nat),
            decreases remaining,
        {
            if remaining == 0 {
                return Ok(State::Running);
            }
            let st = match self.step_once() {
                Ok(st) => st,
                Err(e) => {
                    return Err(e);
                },
            };
            match st {
                State::Running => {
                    remaining = remaining - 1;
                },
                State::Waiting => {
                    return Ok(State::Waiting);
                },
                State::Halted => {
                    return Ok(State::Halted);
                },
            }
        }
    }
}

impl IntCodeComputer for Machine {
    open spec fn vm(&self) -> VmView {
        self@
    }

    fn run(&mut self) -> (r: Result<State, ExecError>) {
        self.run_for(u64::MAX)
    }

    fn out(&self) -> (o: &Vec<i64>) {
        &self.outputs
    }

    fn push(&mut self, val: i64) {
        self.inputs.push(val);
    }

    fn mem(&self, at: i64) -> (r: i64) {
        self.memory.read(at)
    }

    fn state(&self) -> (r: Result<State, ExecError>) {
        match self.decode() {
            Err(e) => Err(e),
            Ok(instr) => Ok(
                match instr {
                    Instr::Halt(_) => State::Halted,
                    Instr::Read(_) => if self.inputs.len() == 0 {
                        State::Waiting
                    } else {
                        State::Running
                    },
                    _ => State::Running,
                },
            ),
        }
    }
}

} // verus!
