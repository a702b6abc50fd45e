//! The SBrain virtual machine: fixed 65,536-cell instruction and data tapes,
//! a data stack, a bracket stack, an auxiliary register, and two 16-bit
//! pointers. Verified against the small-step semantics in [`crate::semantics`].
use vstd::prelude::*;

use crate::semantics::{action_of, dispatch, halts_within, is_halted, run_n, MState, TAPE_LEN};

verus! {

/// The type of a data cell.
pub type MData = u32;

/// The type of a pointer to a cell.
pub type MAddr = u16;

/// How the run loop must react to the instruction just executed. The
/// dispatcher sees a single instruction at a time, so flow control is
/// reported back to the run loop through this value.
pub enum FlowAction {
    /// No flow control action is required.
    NoAction,
    /// The run loop should resume past the end of the current loop body.
    SkipLoop,
    /// The program is done.
    Done,
}

/// A virtual machine modelling the SBrain Turing machine. It provides exactly
/// 2^16 data and instruction cells, so all pointers are `u16` and wrap to a
/// valid address; all data cells are `u32`. The data and bracket stacks are
/// indefinitely expandable.
pub struct SBrainVM {
    /// The data tape: the primary data the program operates on.
    data_tape: Vec<MData>,
    /// The data stack: position-independent storage of data.
    data_stack: Vec<MData>,
    /// Auxiliary register.
    auxi_r: MData,
    /// The bracket stack: addresses of the loop-opens whose bodies are being
    /// executed.
    jump_stack: Vec<MAddr>,
    /// The instruction tape. The recommended format is 6-bit binary; Rust has
    /// no 6-bit datatype, so `u8` is used instead.
    exec_tape: Vec<u8>,
    /// Pointer to the current data cell.
    data_p: MAddr,
    /// Pointer to the current instruction.
    inst_p: MAddr,
    /// The input sequence, consumed oldest value first.
    input_t: Vec<MData>,
    /// How much of the input sequence has been consumed.
    input_p: usize,
    /// The output sequence.
    output_t: Vec<MData>,
}

impl View for SBrainVM {
    type V = MState;

    closed spec fn view(&self) -> MState {
        MState {
            code: self.exec_tape@,
            data: self.data_tape@,
            stack: self.data_stack@,
            jumps: self.jump_stack@,
            auxi: self.auxi_r,
            dp: self.data_p,
            ip: self.inst_p,
            input: self.input_t@.skip(self.input_p as int),
            output: self.output_t@,
        }
    }
}

impl SBrainVM {
    /// Both tapes have their fixed length and the input cursor is in range.
    pub closed spec fn wf(&self) -> bool {
        &&& self.exec_tape@.len() == TAPE_LEN
        &&& self.data_tape@.len() == TAPE_LEN
        &&& self.input_p <= self.input_t@.len()
    }

    /// The state a fresh machine is in: zeroed tapes, empty stacks and
    /// output, the given input.
    pub open spec fn initial(input: Seq<MData>) -> MState {
        MState {
            code: Seq::new(TAPE_LEN as nat, |i: int| 0u8),
            data: Seq::new(TAPE_LEN as nat, |i: int| 0u32),
            stack: Seq::empty(),
            jumps: Seq::empty(),
            auxi: 0,
            dp: 0,
            ip: 0,
            input: input,
            output: Seq::empty(),
        }
    }

    /// Return a new SBrainVM, with no data in any tapes. `None` for the input
    /// behaves as an exhausted input sequence: every read yields 0.
    pub fn new(input_t: Option<Vec<MData>>) -> (vm: SBrainVM)
        ensures
            vm.wf(),
            vm@ == Self::initial(match input_t {
                Option::Some(v) => v@,
                Option::None => Seq::<MData>::empty(),
            }),
    {
        let vm = SBrainVM {
            data_tape: zeroed_u32_tape(),
            data_stack: Vec::with_capacity(256),
            auxi_r: 0,
            jump_stack: Vec::new(),
            exec_tape: zeroed_u8_tape(),
            data_p: 0,
            inst_p: 0,
            input_t: match input_t {
                Option::Some(v) => v,
                Option::None => Vec::new(),
            },
            input_p: 0,
            output_t: Vec::new(),
        };
        proof {
            assert(vm@ =~= Self::initial(match input_t {
                Option::Some(v) => v@,
                Option::None => Seq::<MData>::empty(),
            }));
        }
        vm
    }

    /// Return a new SBrainVM in a `Box`, with no data in any tapes.
    pub fn boxed(input_t: Option<Vec<MData>>) -> (vm: Box<SBrainVM>)
        ensures
            vm.wf(),
            vm@ == Self::initial(match input_t {
                Option::Some(v) => v@,
                Option::None => Seq::<MData>::empty(),
            }),
    {
        Box::new(SBrainVM::new(input_t))
    }

    /// Load a program tape: copy the given slice onto the start of the
    /// instruction tape. A program longer than the tape is a construction
    /// error, reported in the `Err` return, and leaves the machine untouched.
    pub fn load_program(&mut self, program: &[u8]) -> (r: Result<(), String>)
        requires
            old(self).wf(),
        ensures
            final(self).wf(),
            program@.len() > TAPE_LEN ==> r is Err && final(self)@ == old(self)@,
            program@.len() <= TAPE_LEN ==> r is Ok && final(self)@ == (MState {
                code: crate::semantics::overwrite_prefix(old(self)@.code, program@),
                ..old(self)@
            }),
    {
        // No program can be longer than the tape the VM stores programs on.
        if program.len() > TAPE_LEN {
            return Result::Err(String::from_str("Provided program exceeds VM tape length."));
        }
        let mut i: usize = 0;
        while i < program.len()
            invariant
                self.wf(),
                i <= program@.len() <= TAPE_LEN,
                self@ == (MState {
                    code: crate::semantics::overwrite_prefix(old(self)@.code, program@.take(
                        i as int,
                    )),
                    ..old(self)@
                }),
            decreases program@.len() - i,
        {
            self.exec_tape.set(i, program[i]);
            i = i + 1;
            proof {
                assert(self@.code =~= crate::semantics::overwrite_prefix(
                    old(self)@.code,
                    program@.take(i as int),
                ));
            }
        }
        proof {
            assert(self@.code =~= crate::semantics::overwrite_prefix(old(self)@.code, program@));
        }
        Result::Ok(())
    }

    /// Load a data tape: copy the given slice onto the start of the data
    /// tape. A data segment longer than the tape is a construction error,
    /// reported in the `Err` return, and leaves the machine untouched.
    pub fn load_data(&mut self, data: &[MData]) -> (r: Result<(), String>)
        requires
            old(self).wf(),
        ensures
            final(self).wf(),
            data@.len() > TAPE_LEN ==> r is Err && final(self)@ == old(self)@,
            data@.len() <= TAPE_LEN ==> r is Ok && final(self)@ == (MState {
                data: crate::semantics::overwrite_prefix(old(self)@.data, data@),
                ..old(self)@
            }),
    {
        // No data segment can be longer than the data tape.
        if data.len() > TAPE_LEN {
            return Result::Err(String::from_str("Provided data exceeds VM tape length."));
        }
        let mut i: usize = 0;
        while i < data.len()
            invariant
                self.wf(),
                i <= data@.len() <= TAPE_LEN,
                self@ == (MState {
                    data: crate::semantics::overwrite_prefix(old(self)@.data, data@.take(i as int)),
                    ..old(self)@
                }),
            decreases data@.len() - i,
        {
            self.data_tape.set(i, data[i]);
            i = i + 1;
            proof {
                assert(self@.data =~= crate::semantics::overwrite_prefix(
                    old(self)@.data,
                    data@.take(i as int),
                ));
            }
        }
        proof {
            assert(self@.data =~= crate::semantics::overwrite_prefix(old(self)@.data, data@));
        }
        Result::Ok(())
    }

    /// The next value of the input sequence, oldest first; 0 once the input
    /// is exhausted, which never faults.
    fn get_input(&mut self) -> (v: MData)
        requires
            old(self).wf(),
        ensures
            final(self).wf(),
            old(self)@.input.len() == 0 ==> v == 0 && final(self)@ == old(self)@,
            old(self)@.input.len() > 0 ==> v == old(self)@.input.first() && final(self)@ == (MState {
                input: old(self)@.input.drop_first(),
                ..old(self)@
            }),
    {
        if self.input_p < self.input_t.len() {
            let v = self.input_t[self.input_p];
            self.input_p = self.input_p + 1;
            proof {
                assert(self.input_t@.skip(self.input_p as int) =~= old(
                    self,
                )@.input.drop_first());
                assert(self@ =~= (MState { input: old(self)@.input.drop_first(), ..old(self)@ }));
            }
            v
        } else {
            proof {
                assert(self@ =~= old(self)@);
            }
            0
        }
    }

    /// Append one value to the output sequence.
    fn put_output(&mut self, output: MData)
        requires
            old(self).wf(),
        ensures
            final(self).wf(),
            final(self)@ == (MState { output: old(self)@.output.push(output), ..old(self)@ }),
    {
        self.output_t.push(output);
        proof {
            assert(self@ =~= (MState { output: old(self)@.output.push(output), ..old(self)@ }));
        }
    }

    /// Write `v` into the cell under the data pointer.
    fn set_cell(&mut self, v: MData)
        requires
            old(self).wf(),
        ensures
            final(self).wf(),
            final(self)@ == old(self)@.with_cell(v),
    {
        self.data_tape.set(self.data_p as usize, v);
        proof {
            assert(self@ =~= old(self)@.with_cell(v));
        }
    }

    /// The cell under the data pointer.
    fn get_cell(&self) -> (v: MData)
        requires
            self.wf(),
        ensures
            v == self@.cell(),
    {
        self.data_tape[self.data_p as usize]
    }

    /// Advance the instruction pointer by one, wrapping modulo 2^16.
    fn advance_ip(&mut self)
        requires
            old(self).wf(),
        ensures
            final(self).wf(),
            final(self)@ == (MState { ip: crate::semantics::next_ip(old(self)@.ip), ..old(self)@ }),
    {
        self.inst_p = self.inst_p.wrapping_add(1);
        proof {
            assert(self@ =~= (MState {
                ip: crate::semantics::next_ip(old(self)@.ip),
                ..old(self)@
            }));
        }
    }

    /// Execute one instruction against the store. Every opcode is total: the
    /// cell and the pointers wrap, the stacks never fault, division and
    /// modulo by a zero auxiliary register yield 0, and any value that is not
    /// an opcode is a no-op. Returns the flow directive the run loop must
    /// apply; when it is `NoAction` the instruction pointer has already been
    /// repositioned (advanced by one, or moved to the loop-open a close
    /// re-enters), and otherwise the store is untouched.
    fn do_instruction(&mut self, instr: u8) -> (act: FlowAction)
        requires
            old(self).wf(),
        ensures
            final(self).wf(),
            act == action_of(old(self)@, instr),
            act is NoAction ==> final(self)@ == dispatch(old(self)@, instr),
            !(act is NoAction) ==> final(self)@ == old(self)@,
    {
        match instr {
            // Decrement and increment for the data pointer, wrapping.
            0 => {
                self.data_p = self.data_p.wrapping_sub(1);
                self.advance_ip();
            },
            1 => {
                self.data_p = self.data_p.wrapping_add(1);
                self.advance_ip();
            },
            // Decrement and increment for the current cell, wrapping.
            2 => {
                let a = self.get_cell();
                self.set_cell(a.wrapping_sub(1));
                self.advance_ip();
            },
            3 => {
                let a = self.get_cell();
                self.set_cell(a.wrapping_add(1));
                self.advance_ip();
            },
            // Loop open: enter the body when the cell is nonzero, remembering
            // this address; otherwise have the run loop skip the body.
            4 => {
                if self.get_cell() == 0 {
                    return FlowAction::SkipLoop;
                }
                self.jump_stack.push(self.inst_p);
                self.advance_ip();
            },
            // Loop close: pop the bracket stack. Empty means an unmatched
            // close, a no-op. A nonzero cell re-enters the loop at its open,
            // which re-evaluates the zero test; a zero cell falls through.
            5 => {
                match self.jump_stack.pop() {
                    Option::Some(addr) => {
                        if self.get_cell() != 0 {
                            self.inst_p = addr;
                        } else {
                            self.advance_ip();
                        }
                    },
                    Option::None => {
                        self.advance_ip();
                    },
                }
            },
            // Output and input.
            6 => {
                let a = self.get_cell();
                self.put_output(a);
                self.advance_ip();
            },
            7 => {
                let v = self.get_input();
                self.set_cell(v);
                self.advance_ip();
            },
            // Data stack: push the cell; pop into the cell, 0 when empty.
            8 => {
                let a = self.get_cell();
                self.data_stack.push(a);
                self.advance_ip();
            },
            9 => {
                let v = match self.data_stack.pop() {
                    Option::Some(n) => n,
                    Option::None => 0,
                };
                self.set_cell(v);
                self.advance_ip();
            },
            // Auxiliary register moves.
            10 => {
                self.auxi_r = self.get_cell();
                self.advance_ip();
            },
            11 => {
                let b = self.auxi_r;
                self.set_cell(b);
                self.advance_ip();
            },
            12 => {
                self.auxi_r = 0;
                self.advance_ip();
            },
            // Unary bitwise operations on the auxiliary register.
            13 => {
                self.auxi_r = !self.auxi_r;
                self.advance_ip();
            },
            14 => {
                self.auxi_r = self.auxi_r << 1u32;
                self.advance_ip();
            },
            15 => {
                self.auxi_r = self.auxi_r >> 1u32;
                self.advance_ip();
            },
            // Binary operations of the cell with the auxiliary register.
            16 => {
                let a = self.get_cell();
                self.set_cell(a | self.auxi_r);
                self.advance_ip();
            },
            17 => {
                let a = self.get_cell();
                self.set_cell(a & self.auxi_r);
                self.advance_ip();
            },
            18 => {
                let a = self.get_cell();
                self.set_cell(a ^ self.auxi_r);
                self.advance_ip();
            },
            19 => {
                let a = self.get_cell();
                self.set_cell(!(a | self.auxi_r));
                self.advance_ip();
            },
            20 => {
                let a = self.get_cell();
                self.set_cell(!(a & self.auxi_r));
                self.advance_ip();
            },
            21 => {
                let a = self.get_cell();
                self.set_cell(a.wrapping_add(self.auxi_r));
                self.advance_ip();
            },
            22 => {
                let a = self.get_cell();
                self.set_cell(a.wrapping_sub(self.auxi_r));
                self.advance_ip();
            },
            // Quotient and modulo, defined as 0 on a zero divisor: mutated
            // programs routinely divide by zero and must never fault.
            23 => {
                let a = self.get_cell();
                let b = self.auxi_r;
                self.set_cell(if b == 0 { 0 } else { a / b });
                self.advance_ip();
            },
            24 => {
                let a = self.get_cell();
                let b = self.auxi_r;
                self.set_cell(if b == 0 { 0 } else { a % b });
                self.advance_ip();
            },
            25 => {
                let a = self.get_cell();
                self.set_cell(a.wrapping_mul(self.auxi_r));
                self.advance_ip();
            },
            31 => {
                return FlowAction::Done;
            },
            _ => {
                self.advance_ip();
            },
        }
        proof {
            assert(self@ =~= dispatch(old(self)@, instr));
        }
        FlowAction::NoAction
    }

    /// Resolve the forward skip for a loop-open whose body must be bypassed:
    /// scan forward counting nested opens and closes, and resume one past the
    /// matching close, or at the tape's last address when the open is
    /// unmatched. The nesting count is what makes skipping correct for
    /// arbitrarily nested loops.
    fn resolve_skip(&mut self)
        requires
            old(self).wf(),
        ensures
            final(self).wf(),
            final(self)@ == (MState {
                ip: crate::semantics::skip_target(old(self)@.code, old(self)@.ip),
                ..old(self)@
            }),
    {
        let start: usize = self.inst_p as usize;
        let mut j: usize = start + 1;
        let mut depth: usize = 1;
        while j < TAPE_LEN
            invariant
                self.wf(),
                self == old(self),
                start == old(self)@.ip as int,
                start + 1 <= j <= TAPE_LEN,
                1 <= depth <= j,
                crate::semantics::skip_scan(self@.code, start as int + 1, 1)
                    == crate::semantics::skip_scan(self@.code, j as int, depth as int),
            decreases TAPE_LEN - j,
        {
            let op = self.exec_tape[j];
            proof {
                assert(crate::semantics::skip_scan(self@.code, j as int, depth as int) == (
                if depth + crate::semantics::nest_delta(self@.code[j as int]) == 0 {
                    j as int
                } else {
                    crate::semantics::skip_scan(
                        self@.code,
                        j as int + 1,
                        depth + crate::semantics::nest_delta(self@.code[j as int]),
                    )
                }));
            }
            if op == 4 {
                depth = depth + 1;
            } else if op == 5 {
                depth = depth - 1;
                if depth == 0 {
                    // Found the matching close: resume just past it.
                    self.inst_p = if j + 1 < TAPE_LEN {
                        (j + 1) as u16
                    } else {
                        0
                    };
                    proof {
                        assert(self@ =~= (MState {
                            ip: crate::semantics::skip_target(old(self)@.code, old(self)@.ip),
                            ..old(self)@
                        }));
                    }
                    return;
                }
            }
            j = j + 1;
        }
        // No matching close on the tape: resume at its last address, which
        // typically lets a broken program run off into no-ops.
        self.inst_p = (TAPE_LEN - 1) as u16;
        proof {
            assert(self@ =~= (MState {
                ip: crate::semantics::skip_target(old(self)@.code, old(self)@.ip),
                ..old(self)@
            }));
        }
    }

    /// Return a copy of the output data of the machine: a snapshot,
    /// independent of further execution.
    pub fn get_output(&self) -> (out: Vec<MData>)
        ensures
            out@ == self@.output,
    {
        let mut out: Vec<MData> = Vec::with_capacity(self.output_t.len());
        let mut i: usize = 0;
        while i < self.output_t.len()
            invariant
                i <= self.output_t@.len(),
                out@ == self@.output.take(i as int),
            decreases self.output_t@.len() - i,
        {
            out.push(self.output_t[i]);
            i = i + 1;
            proof {
                assert(out@ =~= self@.output.take(i as int));
            }
        }
        proof {
            assert(out@ =~= self@.output);
        }
        out
    }

    /// Run the machine until it halts or the cycle budget is spent: `None`
    /// runs with the largest budget the cycle counter can express,
    /// `Some(n)` for at most `n` cycles. Returns the number of cycles
    /// executed and whether the machine halted on its own (`true`) rather
    /// than being cut off by the budget (`false`). The output accumulated so
    /// far is valid either way, so a caller can extract partial results from
    /// a non-terminating program.
    #[verifier::loop_isolation(false)]
    pub fn run(&mut self, cycles: Option<u32>) -> (r: (u32, bool))
        requires
            old(self).wf(),
        ensures
            final(self).wf(),
            final(self)@ == run_n(old(self)@, r.0 as nat),
            forall|j: nat| j < r.0 ==> !is_halted(run_n(old(self)@, j)),
            r.1 <==> halts_within(old(self)@, budget_of(cycles) as nat),
            r.1 ==> is_halted(final(self)@),
            !r.1 ==> r.0 == budget_of(cycles),
            r.0 <= budget_of(cycles),
    {
        let budget: u32 = match cycles {
            Option::Some(n) => n,
            Option::None => u32::MAX,
        };
        let mut done_cycles: u32 = 0;
        loop
            invariant
                self.wf(),
                done_cycles <= budget,
                self@ == run_n(old(self)@, done_cycles as nat),
                forall|j: nat| j < done_cycles ==> !is_halted(run_n(old(self)@, j)),
            decreases budget - done_cycles,
        {
            if done_cycles >= budget {
                // The budget is spent before the machine halted.
                proof {
                    assert(forall|k: nat|
                        k < budget ==> !is_halted(#[trigger] run_n(old(self)@, k)));
                }
                return (done_cycles, false);
            }
            // Execute the current instruction.
            let instruction = self.exec_tape[self.inst_p as usize];
            let action = self.do_instruction(instruction);
            match action {
                // The dispatcher repositioned the instruction pointer itself.
                FlowAction::NoAction => {},
                // Quit: the halt opcode leaves the machine in place.
                FlowAction::Done => {
                    return (done_cycles, true);
                },
                // Skip to one past the end of the loop body.
                FlowAction::SkipLoop => {
                    self.resolve_skip();
                },
            }
            done_cycles = done_cycles + 1;
        }
    }
}

/// The cycle budget a limit stands for: `None` runs with the largest budget
/// the cycle counter can express.
pub open spec fn budget_of(cycles: Option<u32>) -> u32 {
    match cycles {
        Option::Some(n) => n,
        Option::None => u32::MAX,
    }
}

/// A vector of `TAPE_LEN` zero cells.
fn zeroed_u32_tape() -> (t: Vec<u32>)
    ensures
        t@ == Seq::new(TAPE_LEN as nat, |i: int| 0u32),
{
    let mut t: Vec<u32> = Vec::with_capacity(TAPE_LEN);
    let mut i: usize = 0;
    while i < TAPE_LEN
        invariant
            i <= TAPE_LEN,
            t@ == Seq::new(i as nat, |j: int| 0u32),
        decreases TAPE_LEN - i,
    {
        t.push(0);
        i = i + 1;
        proof {
            assert(t@ =~= Seq::new(i as nat, |j: int| 0u32));
        }
    }
    t
}

/// A vector of `TAPE_LEN` zero opcodes.
fn zeroed_u8_tape() -> (t: Vec<u8>)
    ensures
        t@ == Seq::new(TAPE_LEN as nat, |i: int| 0u8),
{
    let mut t: Vec<u8> = Vec::with_capacity(TAPE_LEN);
    let mut i: usize = 0;
    while i < TAPE_LEN
        invariant
            i <= TAPE_LEN,
            t@ == Seq::new(i as nat, |j: int| 0u8),
        decreases TAPE_LEN - i,
    {
        t.push(0);
        i = i + 1;
        proof {
            assert(t@ =~= Seq::new(i as nat, |j: int| 0u8));
        }
    }
    t
}

} // verus!
