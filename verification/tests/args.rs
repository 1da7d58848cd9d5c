use intcode_rs::arg::{Arg, Value};
use intcode_rs::{ExecError, ParamMode};

#[test]
fn mode_digits_decode_each_parameter() {
    // modes field 10: parameter 0 positional, parameter 1 immediate,
    // parameter 2 positional again.
    assert_eq!(Arg::new(10, 0, 4), Ok(Arg::Position(4)));
    assert_eq!(Arg::new(10, 1, 4), Ok(Arg::Immediate(4)));
    assert_eq!(Arg::new(10, 2, 4), Ok(Arg::Position(4)));
    // modes field 212: relative, immediate, relative.
    assert_eq!(Arg::new(212, 0, 7), Ok(Arg::Relative(7)));
    assert_eq!(Arg::new(212, 1, 7), Ok(Arg::Immediate(7)));
    assert_eq!(Arg::new(212, 2, 7), Ok(Arg::Relative(7)));
    // digits beyond the field are zero.
    assert_eq!(Arg::new(212, 3, 7), Ok(Arg::Position(7)));
}

#[test]
fn bad_mode_digits_are_rejected() {
    assert_eq!(Arg::new(3, 0, 7), Err(ExecError::UnknownParamMode));
    assert_eq!(Arg::new(90, 1, 7), Err(ExecError::UnknownParamMode));
    assert_eq!(Arg::new(-1, 0, 7), Err(ExecError::UnknownParamMode));
    assert_eq!(Arg::new(-100, 2, 7), Err(ExecError::UnknownParamMode));
}

#[test]
fn arg_exposes_value_and_mode() {
    assert_eq!(Arg::Immediate(5).val(), 5);
    assert_eq!(Arg::Position(-2).val(), -2);
    assert_eq!(Arg::Relative(9).val(), 9);
    assert_eq!(Arg::Immediate(5).mode(), ParamMode::Immediate);
    assert_eq!(Arg::Position(-2).mode(), ParamMode::Position);
    assert_eq!(Arg::Relative(9).mode(), ParamMode::Relative);
}

#[test]
fn out_resolves_write_destinations() {
    assert_eq!(Arg::Relative(2).out(5), Arg::Immediate(7));
    assert_eq!(Arg::Relative(-2).out(5), Arg::Immediate(3));
    assert_eq!(Arg::Position(3).out(5), Arg::Immediate(3));
    assert_eq!(Arg::Immediate(4).out(5), Arg::Immediate(4));
}

#[test]
fn get_resolves_reads() {
    assert_eq!(Arg::Immediate(4).get(5), Value::Literal(4));
    assert_eq!(Arg::Position(3).get(5), Value::Pointer(3));
    assert_eq!(Arg::Relative(2).get(5), Value::Pointer(7));
}
