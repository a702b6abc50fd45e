use sbrain::{evaluate, EvalResult};

#[test]
fn test_echo_loop_halts_with_full_output() {
    // `[.>]` with data segment `Hello`: five echo-and-advance iterations,
    // each one open, output, advance and close, then the final close over the
    // zero cell falls through to the halt opcode, which costs no cycle.
    let r: EvalResult = evaluate("[.>]@@Hello", None);
    assert_eq!(r.output, vec![72, 101, 108, 108, 111]);
    assert!(r.halted);
    assert_eq!(r.cycles, 20);
}

#[test]
fn test_echo_loop_cut_off_returns_prefix() {
    // The same program with a budget of 3 cycles is cut off mid-loop and has
    // produced a strict prefix of the full output.
    let full = evaluate("[.>]@@Hello", None);
    let r = evaluate("[.>]@@Hello", Some(3));
    assert!(!r.halted);
    assert_eq!(r.cycles, 3);
    assert_eq!(r.output, vec![72]);
    assert!(r.output.len() < full.output.len());
    assert_eq!(full.output[..r.output.len()], r.output[..]);
}

#[test]
fn test_counting_loop() {
    // `[.-]` over a single cell holding 5 counts down, printing each value,
    // and exits with the cell at 0: the trailing output opcode shows it.
    let r = evaluate("[.-].@@\u{5}", None);
    assert_eq!(r.output, vec![5, 4, 3, 2, 1, 0]);
    assert!(r.halted);
}

#[test]
fn test_counting_loop_without_trailing_read() {
    let r = evaluate("[.-]@@\u{5}", None);
    assert_eq!(r.output, vec![5, 4, 3, 2, 1]);
    assert!(r.halted);
}

#[test]
fn test_empty_source_spends_the_budget() {
    // An empty program is a tape of no-ops: nothing halts it.
    let r = evaluate("", Some(5));
    assert_eq!(r.output, Vec::<u32>::new());
    assert_eq!(r.cycles, 5);
    assert!(!r.halted);
}

#[test]
fn test_comments_do_not_execute() {
    let r = evaluate("#+++#+.@", Some(100));
    assert_eq!(r.output, vec![1]);
    assert!(r.halted);
}
