use intcode_rs::machine::Machine;
use intcode_rs::{IntCodeComputer, State};

#[test]
fn two_machine_pipeline_passes_a_value() {
    let prog = vec![3, 0, 4, 0, 99];
    let mut a = Machine::new(prog.clone(), vec![]);
    let mut b = Machine::new(prog, vec![]);
    a.push(7);
    let mut sent_to_b = 0;
    loop {
        let sa = a.run().unwrap();
        while sent_to_b < a.out().len() {
            b.push(a.out()[sent_to_b]);
            sent_to_b += 1;
        }
        let sb = b.run().unwrap();
        if sa == State::Halted || sb == State::Halted {
            break;
        }
    }
    assert_eq!(b.out(), &vec![7]);
}

#[test]
fn chained_machines_block_until_fed() {
    // Each machine doubles its input; neither has anything at first.
    let prog = vec![3, 9, 1002, 9, 2, 9, 4, 9, 99, 0];
    let mut a = Machine::new(prog.clone(), vec![]);
    let mut b = Machine::new(prog, vec![]);
    assert_eq!(a.run(), Ok(State::Waiting));
    assert_eq!(b.run(), Ok(State::Waiting));
    a.push(5);
    assert_eq!(a.run(), Ok(State::Halted));
    assert_eq!(a.out(), &vec![10]);
    b.push(a.out()[0]);
    assert_eq!(b.run(), Ok(State::Halted));
    assert_eq!(b.out(), &vec![20]);
}
