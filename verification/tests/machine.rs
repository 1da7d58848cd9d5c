use intcode_rs::machine::Machine;
use intcode_rs::memory::Memory;
use intcode_rs::{ExecError, IntCodeComputer, State};

#[test]
fn unwritten_cells_read_zero() {
    let c = Machine::new(vec![99], vec![]);
    assert_eq!(c.mem(0), 99);
    assert_eq!(c.mem(1), 0);
    assert_eq!(c.mem(100), 0);
    assert_eq!(c.mem(-5), 0);
}

#[test]
fn memory_defaults_and_overwrites() {
    let mut m = Memory::new();
    assert_eq!(m.read(12), 0);
    m.write(12, 5);
    assert_eq!(m.read(12), 5);
    m.write(12, -9);
    assert_eq!(m.read(12), -9);
    assert_eq!(m.read(11), 0);
    m.write(-3, 8);
    assert_eq!(m.read(-3), 8);
}

#[test]
fn add_program_halts_with_sum() {
    // 1 + 1 stored at 0, then halt.
    let mut c = Machine::new(vec![1, 0, 0, 0, 99], vec![]);
    assert_eq!(c.run(), Ok(State::Halted));
    assert_eq!(c.mem(0), 2);
}

#[test]
fn day2_style_program() {
    let mut c = Machine::new(vec![1, 9, 10, 3, 2, 3, 11, 0, 99, 30, 40, 50], vec![]);
    assert_eq!(c.run(), Ok(State::Halted));
    assert_eq!(c.mem(0), 3500);
    assert_eq!(c.mem(3), 70);
}

#[test]
fn immediate_mode_self_modification() {
    let mut c = Machine::new(vec![1101, 100, -1, 4, 0], vec![]);
    assert_eq!(c.run(), Ok(State::Halted));
    assert_eq!(c.mem(4), 99);
}

#[test]
fn parameter_modes_in_a_program() {
    // 1002: multiply, first parameter positional, second immediate.
    let mut c = Machine::new(vec![1002, 4, 3, 4, 33], vec![]);
    assert_eq!(c.run(), Ok(State::Halted));
    assert_eq!(c.mem(4), 99);
}

#[test]
fn self_modifying_code_decodes_freshly() {
    // The add writes 104 into cell 4; reaching cell 4 must decode that
    // fresh value as an immediate-mode write instruction.
    let mut c = Machine::new(vec![1101, 104, 0, 4, 0, 99, 99], vec![]);
    assert_eq!(c.run(), Ok(State::Halted));
    assert_eq!(c.mem(4), 104);
    assert_eq!(c.out(), &vec![99]);
}

#[test]
fn echo_program_copies_input_to_output() {
    let mut c = Machine::new(vec![3, 0, 4, 0, 99], vec![42]);
    assert_eq!(c.run(), Ok(State::Halted));
    assert_eq!(c.out(), &vec![42]);
    assert_eq!(c.mem(0), 42);
}

#[test]
fn blocked_read_waits_without_consuming() {
    let mut c = Machine::new(vec![3, 0, 4, 0, 99], vec![]);
    assert_eq!(c.state(), Ok(State::Waiting));
    assert_eq!(c.run(), Ok(State::Waiting));
    assert_eq!(c.run(), Ok(State::Waiting));
    assert_eq!(c.mem(0), 3);
    assert!(c.out().is_empty());
    c.push(42);
    assert_eq!(c.state(), Ok(State::Running));
    assert_eq!(c.run(), Ok(State::Halted));
    assert_eq!(c.out(), &vec![42]);
}

#[test]
fn relative_addressing_uses_adjusted_base() {
    // After the base moves to 5, Relative(2) must read address 7.
    let mut c = Machine::new(vec![109, 5, 204, 2, 99, 0, 0, 42], vec![]);
    assert_eq!(c.run(), Ok(State::Halted));
    assert_eq!(c.out(), &vec![42]);
}

#[test]
fn relative_write_target_uses_adjusted_base() {
    // After the base moves to 6, the read stores its input at 6 + 0.
    let mut c = Machine::new(vec![109, 6, 203, 0, 99, 0, 0], vec![55]);
    assert_eq!(c.run(), Ok(State::Halted));
    assert_eq!(c.mem(6), 55);
}

#[test]
fn base_adjustments_accumulate() {
    // The base moves to 3 and then to 6, so Relative(3) must read address
    // 9, not address 6.
    let mut c = Machine::new(vec![109, 3, 109, 3, 204, 3, 99, 0, 0, 77], vec![]);
    assert_eq!(c.run(), Ok(State::Halted));
    assert_eq!(c.out(), &vec![77]);
}

#[test]
fn quine_outputs_itself() {
    let image = vec![
        109, 1, 204, -1, 1001, 100, 1, 100, 1008, 100, 16, 101, 1006, 101, 0, 99,
    ];
    let mut c = Machine::new(image.clone(), vec![]);
    assert_eq!(c.run(), Ok(State::Halted));
    assert_eq!(c.out(), &image);
}

#[test]
fn large_number_multiplication() {
    let mut c = Machine::new(vec![1102, 34915192, 34915192, 7, 4, 7, 99, 0], vec![]);
    assert_eq!(c.run(), Ok(State::Halted));
    assert_eq!(c.out(), &vec![1219070632396864]);
}

#[test]
fn large_immediate_output() {
    let mut c = Machine::new(vec![104, 1125899906842624, 99], vec![]);
    assert_eq!(c.run(), Ok(State::Halted));
    assert_eq!(c.out(), &vec![1125899906842624]);
}

#[test]
fn equals_positional() {
    let prog = vec![3, 9, 8, 9, 10, 9, 4, 9, 99, -1, 8];
    let mut c = Machine::new(prog.clone(), vec![8]);
    assert_eq!(c.run(), Ok(State::Halted));
    assert_eq!(c.out(), &vec![1]);
    let mut c = Machine::new(prog, vec![7]);
    assert_eq!(c.run(), Ok(State::Halted));
    assert_eq!(c.out(), &vec![0]);
}

#[test]
fn less_than_immediate() {
    let prog = vec![3, 3, 1107, -1, 8, 3, 4, 3, 99];
    let mut c = Machine::new(prog.clone(), vec![7]);
    assert_eq!(c.run(), Ok(State::Halted));
    assert_eq!(c.out(), &vec![1]);
    let mut c = Machine::new(prog, vec![9]);
    assert_eq!(c.run(), Ok(State::Halted));
    assert_eq!(c.out(), &vec![0]);
}

#[test]
fn jump_tests_select_branch() {
    // Outputs 0 for input 0, else 1 (positional jumps).
    let prog = vec![3, 12, 6, 12, 15, 1, 13, 14, 13, 4, 13, 99, -1, 0, 1, 9];
    let mut c = Machine::new(prog.clone(), vec![0]);
    assert_eq!(c.run(), Ok(State::Halted));
    assert_eq!(c.out(), &vec![0]);
    let mut c = Machine::new(prog, vec![5]);
    assert_eq!(c.run(), Ok(State::Halted));
    assert_eq!(c.out(), &vec![1]);
}

#[test]
fn compare_around_eight() {
    // 999 below 8, 1000 at 8, 1001 above 8.
    let prog = vec![
        3, 21, 1008, 21, 8, 20, 1005, 20, 22, 107, 8, 21, 20, 1006, 20, 31, 1106, 0, 36, 98, 0,
        0, 1002, 21, 125, 20, 4, 20, 1105, 1, 46, 104, 999, 1105, 1, 46, 1101, 1000, 1, 20, 4,
        20, 1105, 1, 46, 98, 99,
    ];
    let mut c = Machine::new(prog.clone(), vec![5]);
    assert_eq!(c.run(), Ok(State::Halted));
    assert_eq!(c.out(), &vec![999]);
    let mut c = Machine::new(prog.clone(), vec![8]);
    assert_eq!(c.run(), Ok(State::Halted));
    assert_eq!(c.out(), &vec![1000]);
    let mut c = Machine::new(prog, vec![31]);
    assert_eq!(c.run(), Ok(State::Halted));
    assert_eq!(c.out(), &vec![1001]);
}

#[test]
fn run_for_zero_fuel_reports_running() {
    let mut c = Machine::new(vec![99], vec![]);
    assert_eq!(c.run_for(0), Ok(State::Running));
    assert_eq!(c.state(), Ok(State::Halted));
    assert_eq!(c.run_for(1), Ok(State::Halted));
}

#[test]
fn run_for_bounds_an_endless_loop() {
    // 1105,1,0 jumps back to 0 forever.
    let mut c = Machine::new(vec![1105, 1, 0], vec![]);
    assert_eq!(c.run_for(1000), Ok(State::Running));
}

#[test]
fn peek_does_not_step() {
    let mut c = Machine::new(vec![1, 0, 0, 0, 99], vec![]);
    assert_eq!(c.state(), Ok(State::Running));
    assert_eq!(c.mem(0), 1);
    assert_eq!(c.run(), Ok(State::Halted));
    assert_eq!(c.state(), Ok(State::Halted));
}

#[test]
fn push_works_in_any_state() {
    let mut c = Machine::new(vec![3, 0, 3, 1, 99], vec![]);
    c.push(10);
    assert_eq!(c.run(), Ok(State::Waiting));
    c.push(20);
    assert_eq!(c.run(), Ok(State::Halted));
    assert_eq!(c.mem(0), 10);
    assert_eq!(c.mem(1), 20);
}

#[test]
fn unknown_opcode_is_fatal() {
    let mut c = Machine::new(vec![98], vec![]);
    assert_eq!(c.state(), Err(ExecError::UnknownOpCode));
    assert_eq!(c.run(), Err(ExecError::UnknownOpCode));
}

#[test]
fn negative_instruction_word_is_fatal() {
    let mut c = Machine::new(vec![-1], vec![]);
    assert_eq!(c.run(), Err(ExecError::UnknownOpCode));
}

#[test]
fn unknown_mode_digit_is_fatal() {
    // 399 carries mode digit 3; every mode digit is validated, even on a
    // halt instruction.
    let mut c = Machine::new(vec![399], vec![]);
    assert_eq!(c.run(), Err(ExecError::UnknownParamMode));
}

#[test]
fn mode_errors_take_precedence_over_opcode_errors() {
    // 350: opcode 50 is unknown and mode digit 3 is unknown; the modes are
    // validated first.
    let mut c = Machine::new(vec![350], vec![]);
    assert_eq!(c.run(), Err(ExecError::UnknownParamMode));
}

#[test]
fn add_overflow_is_fatal() {
    let mut c = Machine::new(vec![1101, i64::MAX, 1, 0, 99], vec![]);
    assert_eq!(c.run(), Err(ExecError::Overflow));
    // the faulting instruction applied nothing
    assert_eq!(c.mem(0), 1101);
}

#[test]
fn multiply_overflow_is_fatal() {
    let mut c = Machine::new(vec![1102, i64::MAX, 2, 0, 99], vec![]);
    assert_eq!(c.run(), Err(ExecError::Overflow));
}

#[test]
fn base_register_overflow_is_fatal() {
    let mut c = Machine::new(vec![109, i64::MAX, 109, i64::MAX, 99], vec![]);
    assert_eq!(c.run(), Err(ExecError::Overflow));
}

#[test]
fn relative_target_overflow_is_fatal() {
    // The read's destination faults before the empty queue can block it.
    let mut c = Machine::new(vec![109, -1, 203, i64::MIN, 99], vec![]);
    assert_eq!(c.run(), Err(ExecError::Overflow));
}

#[test]
fn jump_beyond_address_space_is_fatal() {
    let mut c = Machine::new(vec![1105, 1, i64::MAX], vec![]);
    assert_eq!(c.run(), Err(ExecError::Overflow));
}
