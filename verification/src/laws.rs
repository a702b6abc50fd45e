//! The engine's robustness guarantees, stated over the small-step semantics
//! and proved for every machine state: wrapping arithmetic, non-faulting
//! division, nesting-aware loop skips, silent stack underflow, and
//! side-effect-free output.
use vstd::prelude::*;

use crate::semantics::{
    dispatch, is_halted, nest_delta, next_ip, run_n, skip_scan, skip_target, step, MState,
    TAPE_LEN,
};

verus! {

/// Arithmetic on cells wraps modulo 2^32 and pointer moves wrap modulo 2^16:
/// the increment, decrement, add, subtract and multiply opcodes compute the
/// exact mathematical result reduced into the cell's or pointer's range.
pub proof fn lemma_arithmetic_wraps(s: MState)
    requires
        s.wf(),
    ensures
        s.op() == 2 ==> step(s).cell() == (s.cell() - 1) % 0x1_0000_0000,
        s.op() == 3 ==> step(s).cell() == (s.cell() + 1) % 0x1_0000_0000,
        s.op() == 21 ==> step(s).cell() == (s.cell() + s.auxi) % 0x1_0000_0000,
        s.op() == 22 ==> step(s).cell() == (s.cell() - s.auxi) % 0x1_0000_0000,
        s.op() == 25 ==> step(s).cell() == (s.cell() * s.auxi) % 0x1_0000_0000,
        s.op() == 0 ==> step(s).dp == (s.dp - 1) % 0x1_0000,
        s.op() == 1 ==> step(s).dp == (s.dp + 1) % 0x1_0000,
{
    lemma_wrap_as_mod(s.cell() - 1, 0x1_0000_0000);
    lemma_wrap_as_mod(s.cell() + 1, 0x1_0000_0000);
    lemma_wrap_as_mod(s.cell() + s.auxi, 0x1_0000_0000);
    lemma_wrap_as_mod(s.cell() - s.auxi, 0x1_0000_0000);
    lemma_wrap_as_mod(s.dp - 1, 0x1_0000);
    lemma_wrap_as_mod(s.dp + 1, 0x1_0000);
}

/// For `-m <= x < 2m`, reducing modulo `m` adds or subtracts `m` at most
/// once; the result of `%` is never negative.
proof fn lemma_wrap_as_mod(x: int, m: int)
    requires
        0 < m,
        -m <= x < 2 * m,
    ensures
        x % m == if x < 0 {
            x + m
        } else if x < m {
            x
        } else {
            x - m
        },
{
    if x < 0 {
        vstd::arithmetic::div_mod::lemma_mod_multiples_vanish(1, x, m);
        vstd::arithmetic::div_mod::lemma_small_mod((x + m) as nat, m as nat);
    } else if x < m {
        vstd::arithmetic::div_mod::lemma_small_mod(x as nat, m as nat);
    } else {
        vstd::arithmetic::div_mod::lemma_mod_multiples_vanish(1, x - m, m);
        vstd::arithmetic::div_mod::lemma_small_mod((x - m) as nat, m as nat);
    }
}

/// Division and modulo by an auxiliary register of 0 always yield 0 and
/// never fault.
pub proof fn lemma_division_by_zero_yields_zero(s: MState)
    requires
        s.wf(),
        s.auxi == 0,
        s.op() == 23 || s.op() == 24,
    ensures
        step(s).cell() == 0,
{
}

/// The outstanding bracket depth just before scanning index `j`, for a
/// loop-open at `p`: one for the open itself, plus every open minus every
/// close in between.
pub open spec fn nest_depth(code: Seq<u8>, p: int, j: int) -> int
    decreases j - p,
{
    if j <= p + 1 {
        1
    } else {
        nest_depth(code, p, j - 1) + nest_delta(code[j - 1])
    }
}

/// The close at `c` matches the loop-open at `p`: it is the first position
/// after `p` where the bracket depth returns to zero.
pub open spec fn matching_close(code: Seq<u8>, p: int, c: int) -> bool {
    &&& p < c < TAPE_LEN
    &&& nest_depth(code, p, c) + nest_delta(code[c]) == 0
    &&& forall|j: int| p < j <= c ==> #[trigger] nest_depth(code, p, j) >= 1
}

/// The scan from position `j` with the true outstanding depth finds exactly
/// the matching close.
proof fn lemma_skip_scan_reaches(code: Seq<u8>, p: int, c: int, j: int)
    requires
        matching_close(code, p, c),
        p + 1 <= j <= c,
        0 <= p,
    ensures
        skip_scan(code, j, nest_depth(code, p, j)) == c,
    decreases c - j,
{
    if j == c {
        assert(nest_depth(code, p, c) + nest_delta(code[c]) == 0);
    } else {
        assert(nest_depth(code, p, j + 1) == nest_depth(code, p, j) + nest_delta(code[j]));
        assert(nest_depth(code, p, j + 1) >= 1);
        lemma_skip_scan_reaches(code, p, c, j + 1);
    }
}

/// Nested loops resolve correctly: a loop-open over a zero cell skips its
/// whole body — inner loops included, since the depth stays positive across
/// them — and execution resumes exactly one instruction past the matching
/// close, with nothing else changed.
pub proof fn lemma_nested_loop_skip(s: MState, c: int)
    requires
        s.wf(),
        s.op() == 4,
        s.cell() == 0,
        matching_close(s.code, s.ip as int, c),
    ensures
        step(s) == (MState {
            ip: if c + 1 < TAPE_LEN {
                (c + 1) as u16
            } else {
                0u16
            },
            ..s
        }),
{
    assert(nest_depth(s.code, s.ip as int, s.ip as int + 1) == 1);
    lemma_skip_scan_reaches(s.code, s.ip as int, c, s.ip as int + 1);
    assert(skip_scan(s.code, s.ip as int + 1, 1) == c);
}

/// The scan never invents a close: whatever position it returns is a genuine
/// matching close for the open at `p`.
proof fn lemma_skip_scan_sound(code: Seq<u8>, p: int, j: int)
    requires
        0 <= p < j <= TAPE_LEN,
        forall|k: int| p < k <= j ==> #[trigger] nest_depth(code, p, k) >= 1,
        skip_scan(code, j, nest_depth(code, p, j)) >= 0,
    ensures
        matching_close(code, p, skip_scan(code, j, nest_depth(code, p, j))),
    decreases TAPE_LEN - j,
{
    let d = nest_depth(code, p, j);
    if j < TAPE_LEN && d + nest_delta(code[j]) != 0 {
        assert(nest_depth(code, p, j + 1) == d + nest_delta(code[j]));
        lemma_skip_scan_sound(code, p, j + 1);
    }
}

/// A loop-open over a zero cell with no matching close anywhere on the tape
/// resumes at the tape's last address, with nothing else changed: a broken
/// program degrades, it never faults.
pub proof fn lemma_unmatched_open_skips_to_tape_end(s: MState)
    requires
        s.wf(),
        s.op() == 4,
        s.cell() == 0,
        forall|c: int| !matching_close(s.code, s.ip as int, c),
    ensures
        step(s) == (MState { ip: (TAPE_LEN - 1) as u16, ..s }),
{
    let p = s.ip as int;
    if skip_scan(s.code, p + 1, 1) >= 0 {
        assert(nest_depth(s.code, p, p + 1) == 1);
        lemma_skip_scan_sound(s.code, p, p + 1);
    }
}

/// Stack underflow is silent: popping the data stack when it is empty writes
/// the sentinel 0 into the cell, and popping the bracket stack when it is
/// empty is a plain no-op; neither is an error.
pub proof fn lemma_stack_underflow_is_silent(s: MState)
    requires
        s.wf(),
    ensures
        s.op() == 9 && s.stack.len() == 0 ==> step(s) == (MState {
            ip: next_ip(s.ip),
            data: s.data.update(s.dp as int, 0u32),
            ..s
        }),
        s.op() == 5 && s.jumps.len() == 0 ==> step(s) == (MState { ip: next_ip(s.ip), ..s }),
{
    if s.op() == 9 && s.stack.len() == 0 {
        assert(step(s) =~= (MState {
            ip: next_ip(s.ip),
            data: s.data.update(s.dp as int, 0u32),
            ..s
        }));
    }
    if s.op() == 5 && s.jumps.len() == 0 {
        assert(step(s) =~= (MState { ip: next_ip(s.ip), ..s }));
    }
}

/// One cycle keeps the store's standing invariants: the tapes keep their
/// lengths, the instruction tape is untouched, the output grows by at most
/// one appended value, and the input loses at most its front value.
proof fn lemma_step_frame(s: MState)
    requires
        s.wf(),
    ensures
        step(s).wf(),
        step(s).code == s.code,
        s.output.is_prefix_of(step(s).output),
        step(s).input.len() <= s.input.len(),
        step(s).input == s.input.skip(s.input.len() - step(s).input.len()),
{
    assert(s.output.is_prefix_of(s.output.push(s.cell()))) by {
        assert(s.output.push(s.cell()).take(s.output.len() as int) =~= s.output);
    }
    assert(s.input =~= s.input.skip(0));
    if s.input.len() > 0 {
        assert(s.input.drop_first() =~= s.input.skip(1));
    }
}

/// The store's invariants hold over any number of cycles: the instruction
/// tape is read-only during execution, the output sequence is append-only,
/// and the input sequence is only ever consumed from the front — what remains
/// is a suffix of what was supplied.
pub proof fn lemma_execution_preserves_store(s: MState, n: nat)
    requires
        s.wf(),
    ensures
        run_n(s, n).wf(),
        run_n(s, n).code == s.code,
        s.output.is_prefix_of(run_n(s, n).output),
        run_n(s, n).input.len() <= s.input.len(),
        run_n(s, n).input == s.input.skip(s.input.len() - run_n(s, n).input.len()),
    decreases n,
{
    if n == 0 {
        assert(s.output.is_prefix_of(s.output)) by {
            assert(s.output.take(s.output.len() as int) =~= s.output);
        }
        assert(s.input =~= s.input.skip(0));
    } else {
        let prev = run_n(s, (n - 1) as nat);
        lemma_execution_preserves_store(s, (n - 1) as nat);
        lemma_step_frame(prev);
        assert(s.output.is_prefix_of(run_n(s, n).output)) by {
            assert(run_n(s, n).output.take(s.output.len() as int) =~= prev.output.take(
                s.output.len() as int,
            ));
        }
        assert(run_n(s, n).input =~= s.input.skip(s.input.len() - run_n(s, n).input.len()));
    }
}

/// Reading is idempotent: executing the output opcode twice on an unmodified
/// cell appends the same value twice and never alters the data tape.
pub proof fn lemma_output_is_idempotent(s: MState)
    requires
        s.wf(),
        s.op() == 6,
        step(s).op() == 6,
    ensures
        run_n(s, 2).output == s.output.push(s.cell()).push(s.cell()),
        run_n(s, 2).data == s.data,
        run_n(s, 2).cell() == s.cell(),
{
    reveal_with_fuel(run_n, 3);
    assert(run_n(s, 2) == step(step(s)));
    assert(step(s).cell() == s.cell());
}

} // verus!
