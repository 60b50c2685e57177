//! The virtual machine: a program counter, a sparse memory tape, a data
//! pointer, and in-memory input/output byte streams, executed one
//! instruction at a time or to completion.
//!
//! The tape is sparse: an address absent from the underlying map denotes the
//! value zero, and no entry is ever stored with value exactly zero — writing
//! zero removes the entry instead. Loop jumps are implemented by a linear
//! rescan of the instruction sequence, counting nesting depth; unmatched
//! brackets surface lazily, at jump time, as faults.
//!
//! Policy choices documented here: moving the data pointer outside the
//! non-negative address range (left of zero, or past the machine's maximum
//! address) is rejected with [`VirtualMachineError::DataPointerOutOfRange`];
//! an `Input` instruction with the input stream exhausted is rejected with
//! [`VirtualMachineError::InputExhausted`]. Neither is recovered: every
//! fault immediately aborts a run.

use crate::instruction::Instruction;
use crate::program::Program;
use std::collections::HashMap;
use vstd::prelude::*;

verus! {

broadcast use vstd::std_specs::hash::group_hash_axioms;

/// A terminal, non-retriable error condition ending a run.
#[derive(PartialEq, Eq, Debug, Clone, Copy)]
pub enum VirtualMachineError {
    /// A `StartLoop`'s forward scan ran past the end of the program without
    /// finding its matching `EndLoop`.
    MissingEndLoop,
    /// An `EndLoop`'s backward scan ran past the start of the program
    /// without finding its matching `StartLoop`.
    MissingStartLoop,
    /// An `Input` instruction could not obtain a byte: the input stream
    /// ended.
    InputExhausted,
    /// The data pointer would have left the non-negative address range.
    DataPointerOutOfRange,
}

/// What a successful step reports: the machine either performed an
/// instruction or had already run past the end of its program.
#[derive(PartialEq, Eq, Debug, Clone, Copy)]
pub enum VirtualMachineStatus {
    Running,
    Terminated,
}

/// The mathematical state of a machine: the instruction sequence, the
/// program counter, the tape as a finite map from address to (non-zero)
/// cell value, the data pointer, the input stream with its read position,
/// and the output produced so far.
#[verifier::ext_equal]
pub ghost struct MachineState {
    pub program: Seq<Instruction>,
    pub pc: nat,
    pub tape: Map<usize, i64>,
    pub dp: nat,
    pub input: Seq<u8>,
    pub in_pos: nat,
    pub output: Seq<u8>,
}

/// The value a tape holds at an address: the stored entry, or zero where no
/// entry is stored.
pub open spec fn tape_get(tape: Map<usize, i64>, address: usize) -> i64 {
    if tape.contains_key(address) {
        tape[address]
    } else {
        0
    }
}

/// Writing a value to the tape: zero removes the entry (absence denotes
/// zero), anything else stores it.
pub open spec fn tape_set(tape: Map<usize, i64>, address: usize, value: i64) -> Map<usize, i64> {
    if value == 0 {
        tape.remove(address)
    } else {
        tape.insert(address, value)
    }
}

/// Increment in the fixed-width signed cell domain, wrapping at the top.
pub open spec fn wrap_inc(value: i64) -> i64 {
    if value == i64::MAX {
        i64::MIN
    } else {
        (value + 1) as i64
    }
}

/// Decrement in the fixed-width signed cell domain, wrapping at the bottom.
pub open spec fn wrap_dec(value: i64) -> i64 {
    if value == i64::MIN {
        i64::MAX
    } else {
        (value - 1) as i64
    }
}

/// The low eight bits of a cell value: what an `Output` instruction emits.
pub open spec fn low_byte(value: i64) -> u8 {
    (value & 0xff) as u8
}

/// Position of the `EndLoop` matching a scan that starts at `position` with
/// `depth` unclosed `StartLoop`s outstanding, or `None` if the scan runs off
/// the end of the program.
pub open spec fn find_match_forward(program: Seq<Instruction>, position: int, depth: int) -> Option<
    int,
>
    decreases program.len() - position,
{
    if position < 0 || position >= program.len() {
        None
    } else {
        let next_depth = match program[position] {
            Instruction::StartLoop => depth + 1,
            Instruction::EndLoop => depth - 1,
            _ => depth,
        };
        if next_depth == 0 {
            Some(position)
        } else {
            find_match_forward(program, position + 1, next_depth)
        }
    }
}

/// Position of the `StartLoop` matching a scan that starts at `position`
/// with `depth` unopened `EndLoop`s outstanding, or `None` if the scan runs
/// off the start of the program.
pub open spec fn find_match_backward(program: Seq<Instruction>, position: int, depth: int) -> Option<
    int,
>
    decreases position + 1,
{
    if position < 0 || position >= program.len() {
        None
    } else {
        let next_depth = match program[position] {
            Instruction::StartLoop => depth - 1,
            Instruction::EndLoop => depth + 1,
            _ => depth,
        };
        if next_depth == 0 {
            Some(position)
        } else {
            find_match_backward(program, position - 1, next_depth)
        }
    }
}

/// What one step of execution does to a machine state.
pub ghost enum StepOutcome {
    /// The instruction at the program counter was performed, yielding this
    /// next state.
    Continue(MachineState),
    /// The program counter was already past the end of the program: the
    /// machine is terminated and the state is unchanged.
    Halt,
    /// The instruction faulted; the state is unchanged.
    Fault(VirtualMachineError),
}

/// The single-step transition of the machine, exactly as `step` performs it.
pub open spec fn step_spec(s: MachineState) -> StepOutcome {
    if s.pc >= s.program.len() {
        StepOutcome::Halt
    } else {
        let current = tape_get(s.tape, s.dp as usize);
        match s.program[s.pc as int] {
            Instruction::Right => if s.dp == usize::MAX as nat {
                StepOutcome::Fault(VirtualMachineError::DataPointerOutOfRange)
            } else {
                StepOutcome::Continue(MachineState { dp: s.dp + 1, pc: s.pc + 1, ..s })
            },
            Instruction::Left => if s.dp == 0 {
                StepOutcome::Fault(VirtualMachineError::DataPointerOutOfRange)
            } else {
                StepOutcome::Continue(
                    MachineState { dp: (s.dp - 1) as nat, pc: s.pc + 1, ..s },
                )
            },
            Instruction::Increment => StepOutcome::Continue(
                MachineState {
                    tape: tape_set(s.tape, s.dp as usize, wrap_inc(current)),
                    pc: s.pc + 1,
                    ..s
                },
            ),
            Instruction::Decrement => StepOutcome::Continue(
                MachineState {
                    tape: tape_set(s.tape, s.dp as usize, wrap_dec(current)),
                    pc: s.pc + 1,
                    ..s
                },
            ),
            Instruction::StartLoop => if current == 0 {
                match find_match_forward(s.program, s.pc as int + 1, 1) {
                    Some(found) => StepOutcome::Continue(
                        MachineState { pc: (found + 1) as nat, ..s },
                    ),
                    None => StepOutcome::Fault(VirtualMachineError::MissingEndLoop),
                }
            } else {
                StepOutcome::Continue(MachineState { pc: s.pc + 1, ..s })
            },
            Instruction::EndLoop => if current != 0 {
                match find_match_backward(s.program, s.pc as int - 1, 1) {
                    Some(found) => StepOutcome::Continue(MachineState { pc: found as nat, ..s }),
                    None => StepOutcome::Fault(VirtualMachineError::MissingStartLoop),
                }
            } else {
                StepOutcome::Continue(MachineState { pc: s.pc + 1, ..s })
            },
            Instruction::Input => if s.in_pos >= s.input.len() {
                StepOutcome::Fault(VirtualMachineError::InputExhausted)
            } else {
                StepOutcome::Continue(
                    MachineState {
                        tape: tape_set(s.tape, s.dp as usize, s.input[s.in_pos as int] as i64),
                        in_pos: s.in_pos + 1,
                        pc: s.pc + 1,
                        ..s
                    },
                )
            },
            Instruction::Output => StepOutcome::Continue(
                MachineState { output: s.output.push(low_byte(current)), pc: s.pc + 1, ..s },
            ),
        }
    }
}

/// The state reached from `s` after exactly `count` successful steps, or
/// `None` if the machine halts or faults before that.
pub open spec fn steps_n(s: MachineState, count: nat) -> Option<MachineState>
    decreases count,
{
    if count == 0 {
        Some(s)
    } else {
        match step_spec(s) {
            StepOutcome::Continue(next) => steps_n(next, (count - 1) as nat),
            _ => None,
        }
    }
}

/// Whether `target` is reachable from `s` by zero or more successful steps.
pub open spec fn reaches(s: MachineState, target: MachineState) -> bool {
    exists|count: nat| steps_n(s, count) == Some(target)
}

impl MachineState {
    /// Well-formedness: pointers representable, read position within the
    /// input, and the tape sparse — every stored entry is non-zero, so that
    /// the map's size is proportional to the non-zero cells touched.
    pub open spec fn wf(self) -> bool {
        &&& self.pc <= usize::MAX
        &&& self.dp <= usize::MAX
        &&& self.program.len() <= usize::MAX
        &&& self.input.len() <= usize::MAX
        &&& self.in_pos <= self.input.len()
        &&& forall|address: usize| #[trigger]
            self.tape.contains_key(address) ==> self.tape[address] != 0
    }
}

/// Writing to a tape with no zero-valued entries never creates one.
pub proof fn lemma_tape_set_preserves_nonzero(tape: Map<usize, i64>, address: usize, value: i64)
    requires
        forall|a: usize| #[trigger] tape.contains_key(a) ==> tape[a] != 0,
    ensures
        forall|a: usize| #[trigger]
            tape_set(tape, address, value).contains_key(a) ==> tape_set(tape, address, value)[a]
                != 0,
{
}

/// A successful forward scan lands within the program, at or after where it
/// started.
pub proof fn lemma_find_forward_range(
    program: Seq<Instruction>,
    position: int,
    depth: int,
    found: int,
)
    requires
        find_match_forward(program, position, depth) == Some(found),
    ensures
        position <= found < program.len(),
    decreases program.len() - position,
{
    if 0 <= position < program.len() {
        let next_depth = match program[position] {
            Instruction::StartLoop => depth + 1,
            Instruction::EndLoop => depth - 1,
            _ => depth,
        };
        if next_depth != 0 {
            lemma_find_forward_range(program, position + 1, next_depth, found);
        }
    }
}

/// A successful backward scan lands within the program, at or before where
/// it started.
pub proof fn lemma_find_backward_range(
    program: Seq<Instruction>,
    position: int,
    depth: int,
    found: int,
)
    requires
        find_match_backward(program, position, depth) == Some(found),
    ensures
        0 <= found <= position,
        found < program.len(),
    decreases position + 1,
{
    if 0 <= position < program.len() {
        let next_depth = match program[position] {
            Instruction::StartLoop => depth - 1,
            Instruction::EndLoop => depth + 1,
            _ => depth,
        };
        if next_depth != 0 {
            lemma_find_backward_range(program, position - 1, next_depth, found);
        }
    }
}

/// One successful step takes a well-formed state to a well-formed state.
pub proof fn lemma_step_preserves_wf(s: MachineState, next: MachineState)
    requires
        s.wf(),
        step_spec(s) == StepOutcome::Continue(next),
    ensures
        next.wf(),
{
    let position = s.pc as int;
    if position < s.program.len() {
        let current = tape_get(s.tape, s.dp as usize);
        match s.program[position] {
            Instruction::StartLoop => {
                if current == 0 {
                    if let Some(found) = find_match_forward(s.program, position + 1, 1) {
                        lemma_find_forward_range(s.program, position + 1, 1, found);
                    }
                }
            },
            Instruction::EndLoop => {
                if current != 0 {
                    if let Some(found) = find_match_backward(s.program, position - 1, 1) {
                        lemma_find_backward_range(s.program, position - 1, 1, found);
                    }
                }
            },
            Instruction::Increment => {
                lemma_tape_set_preserves_nonzero(s.tape, s.dp as usize, wrap_inc(current));
            },
            Instruction::Decrement => {
                lemma_tape_set_preserves_nonzero(s.tape, s.dp as usize, wrap_dec(current));
            },
            Instruction::Input => {
                if s.in_pos < s.input.len() {
                    lemma_tape_set_preserves_nonzero(
                        s.tape,
                        s.dp as usize,
                        s.input[s.in_pos as int] as i64,
                    );
                }
            },
            _ => {},
        }
    }
}

/// Any number of successful steps preserves well-formedness.
pub proof fn lemma_steps_n_preserves_wf(s: MachineState, target: MachineState, count: nat)
    requires
        s.wf(),
        steps_n(s, count) == Some(target),
    ensures
        target.wf(),
    decreases count,
{
    if count != 0 {
        match step_spec(s) {
            StepOutcome::Continue(next) => {
                lemma_step_preserves_wf(s, next);
                lemma_steps_n_preserves_wf(next, target, (count - 1) as nat);
            },
            _ => {
                assert(false);
            },
        }
    }
}

/// Reachability preserves well-formedness.
pub proof fn lemma_reaches_preserves_wf(s: MachineState, target: MachineState)
    requires
        s.wf(),
        reaches(s, target),
    ensures
        target.wf(),
{
    let count = choose|count: nat| steps_n(s, count) == Some(target);
    lemma_steps_n_preserves_wf(s, target, count);
}

/// Appending one successful step to a run of `count` steps gives a run of
/// `count + 1` steps.
pub proof fn lemma_steps_n_extend(
    s: MachineState,
    mid: MachineState,
    next: MachineState,
    count: nat,
)
    requires
        steps_n(s, count) == Some(mid),
        step_spec(mid) == StepOutcome::Continue(next),
    ensures
        steps_n(s, count + 1) == Some(next),
    decreases count,
{
    if count == 0 {
        assert(steps_n(next, 0) == Some(next));
    } else {
        match step_spec(s) {
            StepOutcome::Continue(after_first) => {
                lemma_steps_n_extend(after_first, mid, next, (count - 1) as nat);
            },
            _ => {
                assert(false);
            },
        }
    }
}

/// Tape sparsity: in any state reachable from a well-formed one, an address
/// whose cell value is zero — in particular one whose increments and
/// decrements netted to zero — is absent from the tape's representation.
pub proof fn lemma_tape_sparsity(s: MachineState, target: MachineState, address: usize)
    requires
        s.wf(),
        reaches(s, target),
        tape_get(target.tape, address) == 0,
    ensures
        !target.tape.contains_key(address),
{
    lemma_reaches_preserves_wf(s, target);
}

/// Read the cell stored for `address`, zero where no entry is stored.
fn tape_read(tape: &HashMap<usize, i64>, address: usize) -> (value: i64)
    ensures
        value == tape_get(tape@, address),
{
    match tape.get(&address) {
        Some(value) => *value,
        None => 0,
    }
}

/// Write a cell, removing the entry instead of storing an exact zero.
fn tape_write(tape: &mut HashMap<usize, i64>, address: usize, value: i64)
    ensures
        final(tape)@ == tape_set(old(tape)@, address, value),
{
    if value == 0 {
        tape.remove(&address);
    } else {
        tape.insert(address, value);
    }
}

/// Scan forward for the `EndLoop` matching an opening bracket: the scan
/// starts at `start` with one unclosed `StartLoop` outstanding.
fn scan_forward(program: &Vec<Instruction>, start: usize) -> (result: Option<usize>)
    requires
        start <= program@.len(),
    ensures
        (match find_match_forward(program@, start as int, 1) {
            Some(found) => result == Some(found as usize) && start <= found < program@.len(),
            None => result is None,
        }),
{
    let mut position = start;
    let mut depth: u128 = 1;
    loop
        invariant
            start <= position <= program@.len(),
            1 <= depth,
            depth <= 1 + position - start,
            find_match_forward(program@, start as int, 1) == find_match_forward(
                program@,
                position as int,
                depth as int,
            ),
        decreases program@.len() - position,
    {
        if position >= program.len() {
            return None;
        }
        let next_depth: u128 = match program[position] {
            Instruction::StartLoop => depth + 1,
            Instruction::EndLoop => depth - 1,
            _ => depth,
        };
        if next_depth == 0 {
            return Some(position);
        }
        position = position + 1;
        depth = next_depth;
    }
}

/// Scan backward for the `StartLoop` matching a closing bracket: the scan
/// starts at `start` with one unopened `EndLoop` outstanding.
fn scan_backward(program: &Vec<Instruction>, start: usize) -> (result: Option<usize>)
    requires
        start < program@.len(),
    ensures
        (match find_match_backward(program@, start as int, 1) {
            Some(found) => result == Some(found as usize) && 0 <= found <= start,
            None => result is None,
        }),
{
    let mut position = start;
    let mut depth: u128 = 1;
    loop
        invariant
            position <= start < program@.len(),
            1 <= depth,
            depth <= 1 + start - position,
            find_match_backward(program@, start as int, 1) == find_match_backward(
                program@,
                position as int,
                depth as int,
            ),
        decreases position,
    {
        let next_depth: u128 = match program[position] {
            Instruction::StartLoop => depth - 1,
            Instruction::EndLoop => depth + 1,
            _ => depth,
        };
        if next_depth == 0 {
            return Some(position);
        }
        if position == 0 {
            proof {
                assert(find_match_backward(program@, position as int, depth as int)
                    == find_match_backward(program@, -1, next_depth as int));
            }
            return None;
        }
        position = position - 1;
        depth = next_depth;
    }
}

/// The virtual machine: owns a program, a program counter, a sparse memory
/// tape, a data pointer, an input byte stream with its read position, and
/// the output byte stream produced so far.
pub struct VirtualMachine {
    program: Program,
    program_pointer: usize,
    data: HashMap<usize, i64>,
    data_pointer: usize,
    input: Vec<u8>,
    input_pointer: usize,
    output: Vec<u8>,
}

impl View for VirtualMachine {
    type V = MachineState;

    closed spec fn view(&self) -> MachineState {
        MachineState {
            program: self.program.inner@,
            pc: self.program_pointer as nat,
            tape: self.data@,
            dp: self.data_pointer as nat,
            input: self.input@,
            in_pos: self.input_pointer as nat,
            output: self.output@,
        }
    }
}

impl VirtualMachine {
    /// Well-formedness of the machine: its mathematical state is well-formed.
    pub open spec fn wf(self) -> bool {
        self@.wf()
    }

    /// A machine ready to run `program`, consuming `input`: program counter
    /// zero, data pointer zero, empty tape, nothing read, nothing written.
    pub fn new(program: Program, input: Vec<u8>) -> (machine: Self)
        ensures
            machine.wf(),
            machine@.program == program.inner@,
            machine@.pc == 0,
            machine@.tape == Map::<usize, i64>::empty(),
            machine@.dp == 0,
            machine@.input == input@,
            machine@.in_pos == 0,
            machine@.output == Seq::<u8>::empty(),
    {
        let machine = VirtualMachine {
            program,
            program_pointer: 0,
            data: HashMap::new(),
            data_pointer: 0,
            input,
            input_pointer: 0,
            output: Vec::new(),
        };
        proof {
            vstd::std_specs::vec::axiom_spec_len(&machine.program.inner);
            vstd::std_specs::vec::axiom_spec_len(&machine.input);
            assert(machine@.output =~= Seq::<u8>::empty());
        }
        machine
    }

    /// Execute the next instruction: exactly the transition `step_spec`
    /// describes. Returns `Ok(Running)` after a successful mutating step,
    /// `Ok(Terminated)` — without mutation, idempotently — when the program
    /// counter was already past the end of the program, and `Err` with the
    /// fault, leaving the state unchanged, when the instruction faulted.
    pub fn step(&mut self) -> (result: Result<VirtualMachineStatus, VirtualMachineError>)
        requires
            old(self).wf(),
        ensures
            final(self).wf(),
            (match step_spec(old(self)@) {
                StepOutcome::Continue(next) => result == Ok::<
                    VirtualMachineStatus,
                    VirtualMachineError,
                >(VirtualMachineStatus::Running) && final(self)@ == next,
                StepOutcome::Halt => result == Ok::<VirtualMachineStatus, VirtualMachineError>(
                    VirtualMachineStatus::Terminated,
                ) && final(self)@ == old(self)@,
                StepOutcome::Fault(error) => result == Err::<
                    VirtualMachineStatus,
                    VirtualMachineError,
                >(error) && final(self)@ == old(self)@,
            }),
    {
        if self.program_pointer >= self.program.inner.len() {
            return Ok(VirtualMachineStatus::Terminated);
        }
        let instruction = self.program.inner[self.program_pointer];
        match instruction {
            Instruction::Right => {
                if self.data_pointer == usize::MAX {
                    return Err(VirtualMachineError::DataPointerOutOfRange);
                }
                self.data_pointer = self.data_pointer + 1;
                self.program_pointer = self.program_pointer + 1;
                Ok(VirtualMachineStatus::Running)
            },
            Instruction::Left => {
                if self.data_pointer == 0 {
                    return Err(VirtualMachineError::DataPointerOutOfRange);
                }
                self.data_pointer = self.data_pointer - 1;
                self.program_pointer = self.program_pointer + 1;
                Ok(VirtualMachineStatus::Running)
            },
            Instruction::Increment => {
                let current = tape_read(&self.data, self.data_pointer);
                let new_value = if current == i64::MAX {
                    i64::MIN
                } else {
                    current + 1
                };
                tape_write(&mut self.data, self.data_pointer, new_value);
                proof {
                    lemma_tape_set_preserves_nonzero(old(self)@.tape, self.data_pointer, new_value);
                }
                self.program_pointer = self.program_pointer + 1;
                Ok(VirtualMachineStatus::Running)
            },
            Instruction::Decrement => {
                let current = tape_read(&self.data, self.data_pointer);
                let new_value = if current == i64::MIN {
                    i64::MAX
                } else {
                    current - 1
                };
                tape_write(&mut self.data, self.data_pointer, new_value);
                proof {
                    lemma_tape_set_preserves_nonzero(old(self)@.tape, self.data_pointer, new_value);
                }
                self.program_pointer = self.program_pointer + 1;
                Ok(VirtualMachineStatus::Running)
            },
            Instruction::StartLoop => {
                let current = tape_read(&self.data, self.data_pointer);
                if current == 0 {
                    match scan_forward(&self.program.inner, self.program_pointer + 1) {
                        Some(found) => {
                            self.program_pointer = found + 1;
                            Ok(VirtualMachineStatus::Running)
                        },
                        None => Err(VirtualMachineError::MissingEndLoop),
                    }
                } else {
                    self.program_pointer = self.program_pointer + 1;
                    Ok(VirtualMachineStatus::Running)
                }
            },
            Instruction::EndLoop => {
                let current = tape_read(&self.data, self.data_pointer);
                if current != 0 {
                    if self.program_pointer == 0 {
                        return Err(VirtualMachineError::MissingStartLoop);
                    }
                    match scan_backward(&self.program.inner, self.program_pointer - 1) {
                        Some(found) => {
                            self.program_pointer = found;
                            Ok(VirtualMachineStatus::Running)
                        },
                        None => Err(VirtualMachineError::MissingStartLoop),
                    }
                } else {
                    self.program_pointer = self.program_pointer + 1;
                    Ok(VirtualMachineStatus::Running)
                }
            },
            Instruction::Input => {
                if self.input_pointer >= self.input.len() {
                    return Err(VirtualMachineError::InputExhausted);
                }
                let byte = self.input[self.input_pointer];
                tape_write(&mut self.data, self.data_pointer, byte as i64);
                proof {
                    lemma_tape_set_preserves_nonzero(
                        old(self)@.tape,
                        self.data_pointer,
                        byte as i64,
                    );
                }
                self.input_pointer = self.input_pointer + 1;
                self.program_pointer = self.program_pointer + 1;
                Ok(VirtualMachineStatus::Running)
            },
            Instruction::Output => {
                let current = tape_read(&self.data, self.data_pointer);
                proof {
                    assert(0 <= current & 0xff < 256) by (bit_vector);
                }
                let byte = (current & 0xff) as u8;
                self.output.push(byte);
                self.program_pointer = self.program_pointer + 1;
                Ok(VirtualMachineStatus::Running)
            },
        }
    }

    /// Run: repeatedly step until the machine terminates, an instruction
    /// faults, or `max_steps` instructions have been performed. The first
    /// fault aborts the run and is returned; there is no retry or recovery.
    /// An interpreted program may loop forever, so a caller wanting
    /// run-to-completion keeps calling until the result is not
    /// `Ok(Running)`.
    ///
    /// The final state is reachable from the initial one by successful
    /// steps. `Ok(Terminated)` means the machine has run past the end of
    /// its program; `Ok(Running)` means exactly `max_steps` instructions
    /// were performed; `Err` leaves the failing instruction at the program
    /// counter, the state otherwise untouched by the fault.
    pub fn run(&mut self, max_steps: u64) -> (result: Result<
        VirtualMachineStatus,
        VirtualMachineError,
    >)
        requires
            old(self).wf(),
        ensures
            final(self).wf(),
            reaches(old(self)@, final(self)@),
            (match result {
                Ok(VirtualMachineStatus::Terminated) => step_spec(final(self)@) is Halt,
                Ok(VirtualMachineStatus::Running) => steps_n(old(self)@, max_steps as nat)
                    == Some(final(self)@),
                Err(error) => step_spec(final(self)@) == StepOutcome::Fault(error),
            }),
    {
        let mut steps_taken: u64 = 0;
        proof {
            assert(steps_n(old(self)@, 0) == Some(old(self)@));
        }
        while steps_taken < max_steps
            invariant
                self.wf(),
                steps_taken <= max_steps,
                steps_n(old(self)@, steps_taken as nat) == Some(self@),
            decreases max_steps - steps_taken,
        {
            let ghost pre = self@;
            let step_result = self.step();
            match step_result {
                Ok(VirtualMachineStatus::Running) => {
                    proof {
                        lemma_steps_n_extend(old(self)@, pre, self@, steps_taken as nat);
                    }
                    steps_taken = steps_taken + 1;
                },
                Ok(VirtualMachineStatus::Terminated) => {
                    return Ok(VirtualMachineStatus::Terminated);
                },
                Err(error) => {
                    return Err(error);
                },
            }
        }
        Ok(VirtualMachineStatus::Running)
    }

    /// The value at `address` on the tape: zero for any address never
    /// touched or whose writes netted to zero.
    pub fn get_data(&self, address: usize) -> (value: i64)
        ensures
            value == tape_get(self@.tape, address),
    {
        tape_read(&self.data, address)
    }

    /// The output bytes emitted so far.
    pub fn output(&self) -> (output: &Vec<u8>)
        ensures
            output@ == self@.output,
    {
        &self.output
    }

    /// How many input bytes have been consumed so far.
    pub fn input_position(&self) -> (position: usize)
        ensures
            position == self@.in_pos,
    {
        self.input_pointer
    }

    /// How many tape entries are stored: the tape's memory footprint, which
    /// sparsity keeps proportional to the number of non-zero cells touched.
    pub fn tape_entry_count(&self) -> (count: usize)
        ensures
            count == self@.tape.dom().len(),
    {
        self.data.len()
    }
}

} // verus!
