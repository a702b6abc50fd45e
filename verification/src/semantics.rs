//! The mathematical model of the SBrain virtual machine: an abstract machine
//! state and a small-step transition function. The executable machine is
//! verified against `step` and `run_n`.
use vstd::prelude::*;

verus! {

/// Cells on each tape: the full 16-bit address space, so that every wrapped
/// 16-bit pointer is a valid index.
pub const TAPE_LEN: usize = 65536;

/// The abstract state of one SBrain machine.
#[verifier::ext_equal]
pub ghost struct MState {
    /// Instruction tape, read-only during execution.
    pub code: Seq<u8>,
    /// Data tape of 32-bit cells.
    pub data: Seq<u32>,
    /// Data stack; popping it empty yields 0.
    pub stack: Seq<u32>,
    /// Bracket stack of loop-open addresses; popping it empty is a no-op.
    pub jumps: Seq<u16>,
    /// Auxiliary register: right-hand operand of the binary ALU opcodes.
    pub auxi: u32,
    /// Data pointer.
    pub dp: u16,
    /// Instruction pointer.
    pub ip: u16,
    /// Input still to be consumed, oldest value first.
    pub input: Seq<u32>,
    /// Output produced so far, oldest value first.
    pub output: Seq<u32>,
}

impl MState {
    /// Both tapes cover exactly the 16-bit address space.
    pub open spec fn wf(self) -> bool {
        &&& self.code.len() == TAPE_LEN
        &&& self.data.len() == TAPE_LEN
    }

    /// The opcode under the instruction pointer.
    pub open spec fn op(self) -> u8 {
        self.code[self.ip as int]
    }

    /// The cell under the data pointer.
    pub open spec fn cell(self) -> u32 {
        self.data[self.dp as int]
    }

    /// The state with the cell under the data pointer replaced by `v`.
    pub open spec fn with_cell(self, v: u32) -> MState {
        MState { data: self.data.update(self.dp as int, v), ..self }
    }
}

/// The instruction pointer one step forward, wrapping modulo 2^16.
pub open spec fn next_ip(ip: u16) -> u16 {
    vstd::wrapping::u16_specs::wrapping_add(ip, 1)
}

/// How an opcode changes the bracket-nesting depth: a loop-open deepens it,
/// a loop-close closes one level, everything else leaves it alone.
pub open spec fn nest_delta(op: u8) -> int {
    if op == 4 {
        1
    } else if op == 5 {
        -1
    } else {
        0
    }
}

/// Scan `code` from index `j` onward with `depth` open brackets outstanding;
/// the index of the close that returns the depth to zero, or -1 if the scan
/// runs off the end of the tape.
pub open spec fn skip_scan(code: Seq<u8>, j: int, depth: int) -> int
    decreases TAPE_LEN - j when j <= TAPE_LEN
{
    if j < 0 || j >= TAPE_LEN {
        -1
    } else if depth + nest_delta(code[j]) == 0 {
        j
    } else {
        skip_scan(code, j + 1, depth + nest_delta(code[j]))
    }
}

/// Where execution resumes after a loop-open at `p` whose cell is zero: one
/// past the matching close, found by a nesting-aware forward scan. A loop-open
/// with no matching close before the end of the tape resumes at the tape's
/// last address.
pub open spec fn skip_target(code: Seq<u8>, p: u16) -> u16 {
    let m = skip_scan(code, p + 1, 1);
    if m < 0 {
        (TAPE_LEN - 1) as u16
    } else if m + 1 < TAPE_LEN {
        (m + 1) as u16
    } else {
        0u16
    }
}

/// The flow directive the dispatcher reports for opcode `op` in state `s`:
/// the halt opcode stops the machine, a loop-open over a zero cell has the
/// run loop skip the loop body, and everything else just continues.
pub open spec fn action_of(s: MState, op: u8) -> crate::machine::FlowAction {
    if op == 31 {
        crate::machine::FlowAction::Done
    } else if op == 4 && s.cell() == 0 {
        crate::machine::FlowAction::SkipLoop
    } else {
        crate::machine::FlowAction::NoAction
    }
}

/// The effect of one opcode whose directive is `NoAction`, instruction-pointer
/// update included. Binary ALU opcodes combine the current cell `a` with the
/// auxiliary register `b`; arithmetic wraps modulo 2^32; division and modulo
/// by zero yield 0; pointer moves wrap modulo 2^16; any value that is not an
/// opcode is a no-op.
pub open spec fn dispatch(s: MState, op: u8) -> MState {
    let a = s.cell();
    let b = s.auxi;
    let t = MState { ip: next_ip(s.ip), ..s };
    if op == 0 {
        MState { dp: vstd::wrapping::u16_specs::wrapping_sub(s.dp, 1), ..t }
    } else if op == 1 {
        MState { dp: vstd::wrapping::u16_specs::wrapping_add(s.dp, 1), ..t }
    } else if op == 2 {
        t.with_cell(vstd::wrapping::u32_specs::wrapping_sub(a, 1))
    } else if op == 3 {
        t.with_cell(vstd::wrapping::u32_specs::wrapping_add(a, 1))
    } else if op == 4 {
        // Entering the loop body (the cell is nonzero): remember the open.
        MState { jumps: s.jumps.push(s.ip), ..t }
    } else if op == 5 {
        if s.jumps.len() == 0 {
            // Unmatched close: a no-op.
            t
        } else if a != 0 {
            // Re-enter the loop at its open, which re-evaluates the zero test.
            MState { jumps: s.jumps.drop_last(), ip: s.jumps.last(), ..s }
        } else {
            // Natural loop exit: discard the address and continue.
            MState { jumps: s.jumps.drop_last(), ..t }
        }
    } else if op == 6 {
        MState { output: s.output.push(a), ..t }
    } else if op == 7 {
        if s.input.len() == 0 {
            t.with_cell(0)
        } else {
            MState { input: s.input.drop_first(), ..t.with_cell(s.input.first()) }
        }
    } else if op == 8 {
        MState { stack: s.stack.push(a), ..t }
    } else if op == 9 {
        if s.stack.len() == 0 {
            t.with_cell(0)
        } else {
            MState { stack: s.stack.drop_last(), ..t.with_cell(s.stack.last()) }
        }
    } else if op == 10 {
        MState { auxi: a, ..t }
    } else if op == 11 {
        t.with_cell(b)
    } else if op == 12 {
        MState { auxi: 0, ..t }
    } else if op == 13 {
        MState { auxi: !b, ..t }
    } else if op == 14 {
        MState { auxi: b << 1u32, ..t }
    } else if op == 15 {
        MState { auxi: b >> 1u32, ..t }
    } else if op == 16 {
        t.with_cell(a | b)
    } else if op == 17 {
        t.with_cell(a & b)
    } else if op == 18 {
        t.with_cell(a ^ b)
    } else if op == 19 {
        t.with_cell(!(a | b))
    } else if op == 20 {
        t.with_cell(!(a & b))
    } else if op == 21 {
        t.with_cell(vstd::wrapping::u32_specs::wrapping_add(a, b))
    } else if op == 22 {
        t.with_cell(vstd::wrapping::u32_specs::wrapping_sub(a, b))
    } else if op == 23 {
        t.with_cell(if b == 0 { 0u32 } else { (a as int / b as int) as u32 })
    } else if op == 24 {
        t.with_cell(if b == 0 { 0u32 } else { (a as int % b as int) as u32 })
    } else if op == 25 {
        t.with_cell(vstd::wrapping::u32_specs::wrapping_mul(a, b))
    } else {
        t
    }
}

/// A tape with `pre` written over its first `pre.len()` cells and the rest
/// unchanged: what loading a program or data segment does.
pub open spec fn overwrite_prefix<T>(tape: Seq<T>, pre: Seq<T>) -> Seq<T> {
    Seq::new(tape.len(), |i: int| if i < pre.len() { pre[i] } else { tape[i] })
}

/// The machine has stopped: the opcode under the instruction pointer is halt.
pub open spec fn is_halted(s: MState) -> bool {
    s.op() == 31
}

/// One cycle of the run loop: a halted machine stays put, a loop-open over a
/// zero cell skips its body, anything else is dispatched.
pub open spec fn step(s: MState) -> MState {
    let op = s.op();
    if op == 31 {
        s
    } else if op == 4 && s.cell() == 0 {
        MState { ip: skip_target(s.code, s.ip), ..s }
    } else {
        dispatch(s, op)
    }
}

/// The state after `n` cycles.
pub open spec fn run_n(s: MState, n: nat) -> MState
    decreases n
{
    if n == 0 {
        s
    } else {
        step(run_n(s, (n - 1) as nat))
    }
}

/// The machine halts within `n` cycles.
pub open spec fn halts_within(s: MState, n: nat) -> bool {
    exists|k: nat| k < n && is_halted(#[trigger] run_n(s, k))
}

} // verus!
