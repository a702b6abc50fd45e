//! An execution engine for SBrain, a tape-and-register esoteric language
//! meant as a genotype substrate for genetic programming. Arbitrary, often
//! malformed programs must run safely and deterministically at bounded cost:
//! every opcode is total, every fallback (empty pop, unmatched bracket,
//! division by zero, pointer wraparound, exhausted input) is a defined value,
//! and a caller may bound the number of executed instructions.
use vstd::prelude::*;

pub mod laws;
pub mod machine;
pub mod semantics;
pub mod source;

pub use crate::machine::FlowAction;
pub use crate::machine::MAddr;
pub use crate::machine::MData;
pub use crate::machine::SBrainVM;
pub use crate::source::source_to_tapes;

verus! {

use crate::machine::budget_of;
use crate::semantics::{halts_within, is_halted, overwrite_prefix, run_n, MState, TAPE_LEN};
use crate::source::tapes_of;

/// Represents the outcome of an evaluation by the SBrain VM.
pub struct EvalResult {
    /// The output of the computation.
    pub output: Vec<MData>,
    /// The number of cycles for which the machine ran.
    pub cycles: u32,
    /// Whether or not the machine halted on its own. False means it was
    /// interrupted.
    pub halted: bool,
}

/// The state a fresh machine is in once a source text's instruction and data
/// sequences are loaded onto its tapes.
pub open spec fn eval_start(src: Seq<char>) -> MState {
    let fresh = SBrainVM::initial(Seq::<MData>::empty());
    MState {
        code: overwrite_prefix(fresh.code, tapes_of(src).0),
        data: overwrite_prefix(fresh.data, tapes_of(src).1),
        ..fresh
    }
}

/// Run the program represented by the given source on a new SBrain VM with no
/// input. With `limit = Some(n)` the machine runs for at most `n` cycles;
/// with `None` it runs until it halts or the cycle counter's budget is spent.
/// The source must transliterate to tapes that fit on the VM (see
/// [`crate::source::lemma_tapes_len`]: any source of at most 65,536
/// characters does).
pub fn evaluate(source: &str, limit: Option<u32>) -> (r: EvalResult)
    requires
        tapes_of(source@).0.len() <= TAPE_LEN,
        tapes_of(source@).1.len() <= TAPE_LEN,
    ensures
        r.output@ == run_n(eval_start(source@), r.cycles as nat).output,
        forall|j: nat| j < r.cycles ==> !is_halted(run_n(eval_start(source@), j)),
        r.halted <==> halts_within(eval_start(source@), budget_of(limit) as nat),
        r.halted ==> is_halted(run_n(eval_start(source@), r.cycles as nat)),
        !r.halted ==> r.cycles == budget_of(limit),
        r.cycles <= budget_of(limit),
{
    // Transliterate the source code, creating the two tapes.
    let (program, data) = source_to_tapes(source);
    // Create a machine with no input tape.
    let mut machine = SBrainVM::new(Option::None);
    // Load the program and data tapes; the sizes were required to fit.
    let _ = machine.load_program(program.as_slice());
    let _ = machine.load_data(data.as_slice());
    proof {
        assert(machine@ =~= eval_start(source@));
    }
    let (cycles, halted) = machine.run(limit);
    EvalResult { output: machine.get_output(), cycles: cycles, halted: halted }
}

} // verus!
