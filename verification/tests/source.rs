use sbrain::{source_to_tapes, SBrainVM};

fn compare_output(source: &str, expected_output: &str) {
    let (p, d) = source_to_tapes(source);
    let mut machine = SBrainVM::new(None);
    machine.load_program(&p).unwrap();
    machine.load_data(&d).unwrap();
    machine.run(Some(1000));
    let mut expected: Vec<u32> = Vec::with_capacity(expected_output.len());
    for c in expected_output.chars() {
        expected.push(c as u32);
    }
    let actual = machine.get_output();
    assert_eq!(expected, actual);
}

fn compare_vec_output(source: &str, data_tape: Vec<u32>, expected_output: Vec<u32>) {
    let (p, _) = source_to_tapes(source);
    let mut machine = SBrainVM::new(None);
    machine.load_program(&p).unwrap();
    machine.load_data(&data_tape).unwrap();
    machine.run(Some(1000));
    let actual = machine.get_output();
    assert_eq!(expected_output, actual);
}

#[test]
fn test_transliteration() {
    let source = String::from(
        "[.>]
                              #comment#
                              #these two should not trigger a transition to data mode @@#
                              @@Hello, World!",
    );
    let tapes = source_to_tapes(&source);
    assert_eq!(
        tapes,
        (
            vec![4, 6, 1, 5, 31],
            vec![72, 101, 108, 108, 111, 44, 32, 87, 111, 114, 108, 100, 33]
        )
    );
}

#[test]
fn test_hello_world() {
    compare_output("[.>]@@Hello, World!", "Hello, World!");
}

#[test]
fn test_cell_mod() {
    compare_vec_output("+. >-.", vec![1, 1], vec![2, 0]);
}

#[test]
fn test_full_opcode_table() {
    // The 27 distinguished characters, in opcode order.
    let (code, data) = source_to_tapes("<>-+[].,{}()z!sS|&*^$adqmp@");
    let expected: Vec<u8> = (0u8..26).chain(std::iter::once(31u8)).collect();
    assert_eq!(code, expected);
    assert_eq!(data, Vec::<u32>::new());
}

#[test]
fn test_unrecognized_characters_are_dropped() {
    let (code, data) = source_to_tapes("x + y\t= 7;\n");
    assert_eq!(code, vec![3]);
    assert_eq!(data, Vec::<u32>::new());
}

#[test]
fn test_sentinel_need_not_be_adjacent() {
    // The first halt character arms the sentinel; the characters in between
    // are still mapped through the table; the second switches to data mode.
    let (code, data) = source_to_tapes("@+@xyz");
    assert_eq!(code, vec![31, 3]);
    assert_eq!(data, vec![120, 121, 122]);
}

#[test]
fn test_no_comments_while_sentinel_armed() {
    // While the sentinel is armed, `#` is just an unmapped character: it does
    // not open a comment, so the next halt character still starts the data.
    let (code, data) = source_to_tapes("@#@x");
    assert_eq!(code, vec![31]);
    assert_eq!(data, vec![120]);
}

#[test]
fn test_halt_characters_inside_comments_are_discarded() {
    let (code, data) = source_to_tapes("#@@#+");
    assert_eq!(code, vec![3]);
    assert_eq!(data, Vec::<u32>::new());
}

#[test]
fn test_data_mode_takes_every_character() {
    // Once in data mode, even `#` and `@` are data.
    let (code, data) = source_to_tapes("+@@a#@");
    assert_eq!(code, vec![3, 31]);
    assert_eq!(data, vec![97, 35, 64]);
}

#[test]
fn test_empty_source() {
    let (code, data) = source_to_tapes("");
    assert_eq!(code, Vec::<u8>::new());
    assert_eq!(data, Vec::<u32>::new());
}
