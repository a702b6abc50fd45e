use sbrain::SBrainVM;

/// Build a machine with the given program, data prefix and input, run it
/// with the given limit, and return (output, cycles, halted).
fn run_machine(
    program: &[u8],
    data: &[u32],
    input: Option<Vec<u32>>,
    limit: Option<u32>,
) -> (Vec<u32>, u32, bool) {
    let mut vm = SBrainVM::new(input);
    vm.load_program(program).unwrap();
    vm.load_data(data).unwrap();
    let (cycles, halted) = vm.run(limit);
    (vm.get_output(), cycles, halted)
}

#[test]
fn test_cell_increment_wraps() {
    // A cell at 2^32 - 1 incremented once wraps to 0.
    let (out, _, halted) = run_machine(&[3, 6, 31], &[u32::MAX], None, None);
    assert_eq!(out, vec![0]);
    assert!(halted);
}

#[test]
fn test_cell_decrement_wraps() {
    let (out, _, halted) = run_machine(&[2, 6, 31], &[0], None, None);
    assert_eq!(out, vec![u32::MAX]);
    assert!(halted);
}

#[test]
fn test_pointer_moves_wrap() {
    // Left from address 0 lands on address 65535; right from there wraps back.
    let (out, _, halted) = run_machine(&[0, 3, 6, 1, 6, 31], &[9], None, None);
    assert_eq!(out, vec![1, 9]);
    assert!(halted);
}

#[test]
fn test_add_and_multiply_wrap() {
    // aux <- cell (2^31), then cell + aux and cell * aux both wrap.
    let (out, _, _) = run_machine(&[10, 21, 6, 31], &[0x8000_0000], None, None);
    assert_eq!(out, vec![0]);
    let (out, _, _) = run_machine(&[10, 25, 6, 31], &[0x8000_0000], None, None);
    assert_eq!(out, vec![0]);
}

#[test]
fn test_subtract_wraps() {
    // cell = 1, aux = 3: 1 - 3 wraps modulo 2^32.
    let (out, _, _) = run_machine(&[1, 10, 0, 22, 6, 31], &[1, 3], None, None);
    assert_eq!(out, vec![u32::MAX - 1]);
}

#[test]
fn test_division_by_zero_yields_zero() {
    // cell = 7, aux = 0: quotient is 0, never a fault.
    let (out, _, halted) = run_machine(&[23, 6, 31], &[7], None, None);
    assert_eq!(out, vec![0]);
    assert!(halted);
}

#[test]
fn test_modulo_by_zero_yields_zero() {
    let (out, _, halted) = run_machine(&[24, 6, 31], &[7], None, None);
    assert_eq!(out, vec![0]);
    assert!(halted);
}

#[test]
fn test_division_and_modulo() {
    // cell = 20, aux = 3: quotient 6, remainder 2.
    let (out, _, _) = run_machine(&[1, 10, 0, 23, 6, 31], &[20, 3], None, None);
    assert_eq!(out, vec![6]);
    let (out, _, _) = run_machine(&[1, 10, 0, 24, 6, 31], &[20, 3], None, None);
    assert_eq!(out, vec![2]);
}

#[test]
fn test_nested_loop_skipped_entirely() {
    // [[-]+]. over a zero cell: the whole outer body, inner loop included,
    // is skipped; execution resumes one past the outer close, so the `+` is
    // never executed and the output is 0. A scan unaware of nesting would
    // stop at the first close and run the `+`.
    let (out, cycles, halted) = run_machine(&[4, 4, 2, 5, 3, 5, 6, 31], &[0], None, None);
    assert_eq!(out, vec![0]);
    assert_eq!(cycles, 2);
    assert!(halted);
}

#[test]
fn test_loop_enters_when_nonzero() {
    // [-]. over a nonzero cell: the loop runs the cell down to zero.
    let (out, _, halted) = run_machine(&[4, 2, 5, 6, 31], &[3], None, None);
    assert_eq!(out, vec![0]);
    assert!(halted);
}

#[test]
fn test_data_stack_is_lifo_and_underflow_is_silent() {
    // push 5, decrement to 4, push 4; the pops then yield 4, 5, and the
    // sentinel 0 once the stack is empty.
    let (out, _, halted) = run_machine(&[8, 2, 8, 9, 6, 9, 6, 9, 6, 31], &[5], None, None);
    assert_eq!(out, vec![4, 5, 0]);
    assert!(halted);
}

#[test]
fn test_unmatched_close_is_noop() {
    // A close with an empty bracket stack falls through to the output.
    let (out, _, halted) = run_machine(&[5, 6, 31], &[1], None, None);
    assert_eq!(out, vec![1]);
    assert!(halted);
}

#[test]
fn test_unmatched_open_runs_off_into_noops() {
    // An open over a zero cell with no matching close resumes at the tape's
    // last address; nothing halts, so the budget cuts the run off.
    let (out, cycles, halted) = run_machine(&[4], &[0], None, Some(10));
    assert_eq!(out, Vec::<u32>::new());
    assert_eq!(cycles, 10);
    assert!(!halted);
}

#[test]
fn test_output_is_idempotent() {
    // Two outputs of an unmodified cell append the same value twice.
    let (out, _, halted) = run_machine(&[6, 6, 31], &[42], None, None);
    assert_eq!(out, vec![42, 42]);
    assert!(halted);
}

#[test]
fn test_input_is_read_front_to_back_and_exhaustion_yields_zero() {
    let (out, _, halted) = run_machine(
        &[7, 6, 7, 6, 7, 6, 31],
        &[],
        Some(vec![10, 20]),
        None,
    );
    assert_eq!(out, vec![10, 20, 0]);
    assert!(halted);
}

#[test]
fn test_no_input_tape_reads_zero() {
    let (out, _, halted) = run_machine(&[3, 7, 6, 31], &[], None, None);
    assert_eq!(out, vec![0]);
    assert!(halted);
}

#[test]
fn test_aux_register_moves() {
    // aux <- cell, move right, cell <- aux.
    let (out, _, _) = run_machine(&[10, 1, 11, 6, 31], &[42, 7], None, None);
    assert_eq!(out, vec![42]);
    // z zeroes the register.
    let (out, _, _) = run_machine(&[10, 12, 11, 6, 31], &[42], None, None);
    assert_eq!(out, vec![0]);
}

#[test]
fn test_aux_bitwise_not_and_shifts() {
    // NOT of 0 is all ones.
    let (out, _, _) = run_machine(&[13, 11, 6, 31], &[0], None, None);
    assert_eq!(out, vec![u32::MAX]);
    // 3 shifted left once is 6; 3 shifted right once is 1.
    let (out, _, _) = run_machine(&[10, 14, 11, 6, 31], &[3], None, None);
    assert_eq!(out, vec![6]);
    let (out, _, _) = run_machine(&[10, 15, 11, 6, 31], &[3], None, None);
    assert_eq!(out, vec![1]);
    // A left shift discards the top bit: the shifted-in bit is 0.
    let (out, _, _) = run_machine(&[10, 14, 11, 6, 31], &[0x8000_0001], None, None);
    assert_eq!(out, vec![2]);
}

#[test]
fn test_binary_bitwise_opcodes() {
    // aux = 10, cell = 12: OR, AND, XOR, NOR, NAND in turn.
    let programs: [(u8, u32); 5] = [
        (16, 14),
        (17, 8),
        (18, 6),
        (19, !14u32),
        (20, !8u32),
    ];
    for (op, expected) in programs {
        let (out, _, halted) = run_machine(&[1, 10, 0, op, 6, 31], &[12, 10], None, None);
        assert_eq!(out, vec![expected], "opcode {}", op);
        assert!(halted);
    }
}

#[test]
fn test_unassigned_opcodes_are_noops() {
    // 26 through 30 do nothing and flow continues.
    let (out, cycles, halted) = run_machine(&[26, 27, 28, 29, 30, 6, 31], &[5], None, None);
    assert_eq!(out, vec![5]);
    assert_eq!(cycles, 6);
    assert!(halted);
}

#[test]
fn test_zero_budget_executes_nothing() {
    let (out, cycles, halted) = run_machine(&[6, 31], &[1], None, Some(0));
    assert_eq!(out, Vec::<u32>::new());
    assert_eq!(cycles, 0);
    assert!(!halted);
}

#[test]
fn test_halt_leaves_machine_in_place() {
    // An immediate halt: zero cycles, halted.
    let (out, cycles, halted) = run_machine(&[31], &[], None, None);
    assert_eq!(out, Vec::<u32>::new());
    assert_eq!(cycles, 0);
    assert!(halted);
}

#[test]
fn test_get_output_is_a_snapshot() {
    let mut vm = SBrainVM::new(None);
    vm.load_program(&[6, 6, 31]).unwrap();
    vm.load_data(&[9]).unwrap();
    vm.run(Some(1));
    let first = vm.get_output();
    assert_eq!(first, vec![9]);
    vm.run(None);
    assert_eq!(first, vec![9]);
    assert_eq!(vm.get_output(), vec![9, 9]);
}

#[test]
fn test_load_program_too_long_is_an_error() {
    let mut vm = SBrainVM::new(None);
    let long = vec![0u8; 65537];
    assert!(vm.load_program(&long).is_err());
    let exact = vec![0u8; 65536];
    assert!(vm.load_program(&exact).is_ok());
}

#[test]
fn test_load_data_too_long_is_an_error() {
    let mut vm = SBrainVM::new(None);
    let long = vec![0u32; 65537];
    assert!(vm.load_data(&long).is_err());
    let exact = vec![0u32; 65536];
    assert!(vm.load_data(&exact).is_ok());
}

#[test]
fn test_boxed_machine_runs() {
    let mut vm = SBrainVM::boxed(None);
    vm.load_program(&[3, 6, 31]).unwrap();
    let (cycles, halted) = vm.run(None);
    assert_eq!(cycles, 2);
    assert!(halted);
    assert_eq!(vm.get_output(), vec![1]);
}
