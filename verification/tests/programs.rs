use sbrain::{source_to_tapes, SBrainVM};

fn compare_output_ext(source: &str, input: Vec<u32>, expected: &[u32]) {
    let (p, d) = source_to_tapes(source);
    let mut machine = SBrainVM::new(Some(input));
    machine.load_program(&p).unwrap();
    machine.load_data(&d).unwrap();
    machine.run(Some(1000));
    let actual = machine.get_output();
    assert_eq!(
        expected,
        &actual[0..],
        "Expected {:?}, but the machine output {:?}.",
        expected,
        actual
    );
}

fn bytes(s: &str) -> Vec<u32> {
    s.chars().map(|c| c as u32).collect()
}

#[test]
fn test_cat() {
    let hello = bytes("Hello, World!");
    compare_output_ext(",[.>,]", hello.clone(), &hello);
}

#[test]
fn test_badloop() {
    // A loop that is never closed still echoes once before running off the
    // tape; an unmatched close is a silent no-op.
    compare_output_ext("+[.", vec![], &[1]);
    compare_output_ext("+].[.", vec![], &[1, 1]);
}

#[test]
fn test_manual_division() {
    // Long division written with nothing but the loop and cell opcodes:
    // 20 divided by 2 is 10. Nesting-aware loop resolution is essential here.
    compare_output_ext(
        ",>,>,<<[->+>-[>+>>]>[+[-<+>]>+>>]<<<<<<] >>>>.",
        vec![20, 0, 2],
        &[10],
    );
}

#[test]
fn test_loop() {
    // Count down from 5.
    compare_output_ext(",[.-]", vec![5], &[5, 4, 3, 2, 1]);
}

#[test]
fn test_stack() {
    // Print, push, forward, pop, print.
    compare_output_ext(",.{>}.", vec![1], &[1, 1]);
}

#[test]
fn test_aux() {
    // Put a value in the aux register and modify the tape, then restore it
    // from the register and check that it is the same.
    compare_output_ext(",.(+.).", vec![0], &[0, 1, 0]);
}
