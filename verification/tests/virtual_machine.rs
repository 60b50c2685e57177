use brainfuck_lib::program::Program;
use brainfuck_lib::virtual_machine::{
    VirtualMachine, VirtualMachineError, VirtualMachineStatus,
};

const PLENTY_OF_STEPS: u64 = 10_000_000;

#[test]
fn hello_world() {
    let program = Program::from_string("++++++++[>++++[>++>+++>+++>+<<<<-]>+>+>->>+[<]<-]>>.>---.+++++++..+++.>>.<-.<.+++.------.--------.>>+.>++.".to_string());
    let mut vm = VirtualMachine::new(program, Vec::new());

    assert_eq!(vm.run(PLENTY_OF_STEPS), Ok(VirtualMachineStatus::Terminated));

    assert_eq!(
        String::from_utf8(vm.output().clone()).unwrap(),
        "Hello World!\n"
    )
}

#[test]
fn echo_one_byte() {
    let program = Program::from_string(",.".to_string());
    let mut vm = VirtualMachine::new(program, vec![65]);

    assert_eq!(vm.run(PLENTY_OF_STEPS), Ok(VirtualMachineStatus::Terminated));

    assert_eq!(vm.output(), &vec![65]);
    assert_eq!(vm.input_position(), 1);
}

#[test]
fn clear_loop_zeroes_the_cell() {
    let program = Program::from_string("+++++[-]".to_string());
    let mut vm = VirtualMachine::new(program, Vec::new());

    assert_eq!(vm.run(PLENTY_OF_STEPS), Ok(VirtualMachineStatus::Terminated));

    assert_eq!(vm.get_data(0), 0);
    assert_eq!(vm.tape_entry_count(), 0);
}

#[test]
fn move_loop_transfers_the_cell() {
    let program = Program::from_string("+++++[->+<]".to_string());
    let mut vm = VirtualMachine::new(program, Vec::new());

    assert_eq!(vm.run(PLENTY_OF_STEPS), Ok(VirtualMachineStatus::Terminated));

    assert_eq!(vm.get_data(0), 0);
    assert_eq!(vm.get_data(1), 5);
    assert_eq!(vm.tape_entry_count(), 1);
}

#[test]
fn nested_loops_match_through_depth_two() {
    let program = Program::from_string("++[[-]>]".to_string());
    let mut vm = VirtualMachine::new(program, Vec::new());

    assert_eq!(vm.run(PLENTY_OF_STEPS), Ok(VirtualMachineStatus::Terminated));

    assert_eq!(vm.get_data(0), 0);
    assert_eq!(vm.tape_entry_count(), 0);
}

#[test]
fn unmatched_start_loop_fails_at_first_step() {
    let program = Program::from_string("[".to_string());
    let mut vm = VirtualMachine::new(program, Vec::new());

    assert_eq!(vm.step(), Err(VirtualMachineError::MissingEndLoop));
}

#[test]
fn unmatched_end_loop_fails() {
    let program = Program::from_string("+]".to_string());
    let mut vm = VirtualMachine::new(program, Vec::new());

    assert_eq!(vm.run(PLENTY_OF_STEPS), Err(VirtualMachineError::MissingStartLoop));
}

#[test]
fn end_loop_on_zero_cell_falls_through() {
    let program = Program::from_string("]".to_string());
    let mut vm = VirtualMachine::new(program, Vec::new());

    assert_eq!(vm.run(PLENTY_OF_STEPS), Ok(VirtualMachineStatus::Terminated));
}

#[test]
fn input_on_exhausted_stream_fails() {
    let program = Program::from_string(",".to_string());
    let mut vm = VirtualMachine::new(program, Vec::new());

    assert_eq!(vm.run(PLENTY_OF_STEPS), Err(VirtualMachineError::InputExhausted));
}

#[test]
fn moving_left_of_address_zero_fails() {
    let program = Program::from_string("<".to_string());
    let mut vm = VirtualMachine::new(program, Vec::new());

    assert_eq!(vm.run(PLENTY_OF_STEPS), Err(VirtualMachineError::DataPointerOutOfRange));
}

#[test]
fn increments_netting_to_zero_leave_the_tape_empty() {
    let program = Program::from_string("++->+<->-<".to_string());
    let mut vm = VirtualMachine::new(program, Vec::new());

    assert_eq!(vm.run(PLENTY_OF_STEPS), Ok(VirtualMachineStatus::Terminated));

    assert_eq!(vm.get_data(0), 0);
    assert_eq!(vm.get_data(1), 0);
    assert_eq!(vm.tape_entry_count(), 0);
}

#[test]
fn step_after_termination_is_an_idempotent_no_op() {
    let program = Program::from_string("+".to_string());
    let mut vm = VirtualMachine::new(program, Vec::new());

    assert_eq!(vm.step(), Ok(VirtualMachineStatus::Running));
    assert_eq!(vm.step(), Ok(VirtualMachineStatus::Terminated));
    assert_eq!(vm.step(), Ok(VirtualMachineStatus::Terminated));
    assert_eq!(vm.get_data(0), 1);
}

#[test]
fn run_with_exhausted_budget_reports_running() {
    let program = Program::from_string("+[]".to_string());
    let mut vm = VirtualMachine::new(program, Vec::new());

    assert_eq!(vm.run(1_000), Ok(VirtualMachineStatus::Running));
}

#[test]
fn input_of_zero_is_stored_as_absence() {
    let program = Program::from_string("+,".to_string());
    let mut vm = VirtualMachine::new(program, vec![0]);

    assert_eq!(vm.run(PLENTY_OF_STEPS), Ok(VirtualMachineStatus::Terminated));

    assert_eq!(vm.get_data(0), 0);
    assert_eq!(vm.tape_entry_count(), 0);
}

#[test]
fn output_emits_the_low_byte_of_the_cell() {
    // 260 increments leave the cell at 260; the emitted byte is 260 mod 256.
    let mut source = String::new();
    for _ in 0..260 {
        source.push('+');
    }
    source.push('.');
    let program = Program::from_string(source);
    let mut vm = VirtualMachine::new(program, Vec::new());

    assert_eq!(vm.run(PLENTY_OF_STEPS), Ok(VirtualMachineStatus::Terminated));

    assert_eq!(vm.get_data(0), 260);
    assert_eq!(vm.output(), &vec![4]);
}
