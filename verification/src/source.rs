//! The transliterator: turns textual source into an instruction sequence and
//! an initial data sequence. It never fails; characters outside the opcode
//! table are silently dropped.
use vstd::prelude::*;

verus! {

/// The mode the transliterator is in while walking the source text.
pub enum ParserState {
    /// Mapping characters to opcodes.
    Code,
    /// Appending every character's codepoint to the data sequence.
    Data,
    /// Discarding everything up to the closing `#`.
    Comment,
    /// The halt character has armed the data sentinel: one more halt
    /// character switches to data mode, however far away it is.
    ExpectingAt,
}

/// The transliterator's whole state: its mode and the two sequences built so
/// far.
#[verifier::ext_equal]
pub ghost struct TransState {
    pub mode: ParserState,
    pub code: Seq<u8>,
    pub data: Seq<u32>,
}

/// The fixed one-to-one mapping from the 27 distinguished characters to
/// opcodes; every other character maps to nothing.
pub open spec fn char_op(c: char) -> Option<u8> {
    if c == '<' {
        Option::Some(0u8)
    } else if c == '>' {
        Option::Some(1u8)
    } else if c == '-' {
        Option::Some(2u8)
    } else if c == '+' {
        Option::Some(3u8)
    } else if c == '[' {
        Option::Some(4u8)
    } else if c == ']' {
        Option::Some(5u8)
    } else if c == '.' {
        Option::Some(6u8)
    } else if c == ',' {
        Option::Some(7u8)
    } else if c == '{' {
        Option::Some(8u8)
    } else if c == '}' {
        Option::Some(9u8)
    } else if c == '(' {
        Option::Some(10u8)
    } else if c == ')' {
        Option::Some(11u8)
    } else if c == 'z' {
        Option::Some(12u8)
    } else if c == '!' {
        Option::Some(13u8)
    } else if c == 's' {
        Option::Some(14u8)
    } else if c == 'S' {
        Option::Some(15u8)
    } else if c == '|' {
        Option::Some(16u8)
    } else if c == '&' {
        Option::Some(17u8)
    } else if c == '*' {
        Option::Some(18u8)
    } else if c == '^' {
        Option::Some(19u8)
    } else if c == '$' {
        Option::Some(20u8)
    } else if c == 'a' {
        Option::Some(21u8)
    } else if c == 'd' {
        Option::Some(22u8)
    } else if c == 'q' {
        Option::Some(23u8)
    } else if c == 'm' {
        Option::Some(24u8)
    } else if c == 'p' {
        Option::Some(25u8)
    } else if c == '@' {
        Option::Some(31u8)
    } else {
        Option::None
    }
}

/// The code sequence extended by whatever opcode `c` maps to.
pub open spec fn push_op(code: Seq<u8>, c: char) -> Seq<u8> {
    match char_op(c) {
        Option::Some(n) => code.push(n),
        Option::None => code,
    }
}

/// One character's effect on the transliterator. In code mode, `#` opens a
/// comment and the halt character `@` both emits the halt opcode and arms the
/// data sentinel. While the sentinel is armed, a second `@` switches
/// permanently to data mode — it need not be adjacent to the first: any other
/// character is still mapped through the opcode table and leaves the sentinel
/// armed. In data mode every character's codepoint is appended to the data
/// sequence. In a comment everything up to the closing `#` is discarded.
pub open spec fn translit_step(t: TransState, c: char) -> TransState {
    match t.mode {
        ParserState::Code => {
            if c == '#' {
                TransState { mode: ParserState::Comment, ..t }
            } else if c == '@' {
                TransState { mode: ParserState::ExpectingAt, code: push_op(t.code, c), ..t }
            } else {
                TransState { code: push_op(t.code, c), ..t }
            }
        },
        ParserState::Data => TransState { data: t.data.push(c as u32), ..t },
        ParserState::Comment => {
            if c == '#' {
                TransState { mode: ParserState::Code, ..t }
            } else {
                t
            }
        },
        ParserState::ExpectingAt => {
            if c == '@' {
                TransState { mode: ParserState::Data, ..t }
            } else {
                TransState { code: push_op(t.code, c), ..t }
            }
        },
    }
}

/// The transliterator run from state `t` over the characters of `s`.
pub open spec fn translit_from(t: TransState, s: Seq<char>) -> TransState
    decreases s.len(),
{
    if s.len() == 0 {
        t
    } else {
        translit_from(translit_step(t, s.first()), s.drop_first())
    }
}

/// The state the transliterator starts in: code mode, nothing emitted.
pub open spec fn translit_start() -> TransState {
    TransState { mode: ParserState::Code, code: Seq::empty(), data: Seq::empty() }
}

/// The instruction sequence and data sequence of a source text.
pub open spec fn tapes_of(s: Seq<char>) -> (Seq<u8>, Seq<u32>) {
    let t = translit_from(translit_start(), s);
    (t.code, t.data)
}

/// One transliterator step emits at most one value, so a run over `s` emits
/// at most `s.len()` values across both sequences.
proof fn lemma_translit_from_len(t: TransState, s: Seq<char>)
    ensures
        translit_from(t, s).code.len() + translit_from(t, s).data.len() <= t.code.len()
            + t.data.len() + s.len(),
    decreases s.len(),
{
    if s.len() != 0 {
        lemma_translit_from_len(translit_step(t, s.first()), s.drop_first());
    }
}

/// Together the instruction and data sequences of a source text hold at most
/// one value per character: a character emits an opcode, a datum, or nothing.
pub proof fn lemma_tapes_len(s: Seq<char>)
    ensures
        tapes_of(s).0.len() + tapes_of(s).1.len() <= s.len(),
{
    lemma_translit_from_len(translit_start(), s);
}

/// Given a character, turn it into an SBrainVM instruction.
fn char_to_instruction(character: char) -> (r: Option<u8>)
    ensures
        r == char_op(character),
{
    match character {
        '<' => Option::Some(0),
        '>' => Option::Some(1),
        '-' => Option::Some(2),
        '+' => Option::Some(3),
        '[' => Option::Some(4),
        ']' => Option::Some(5),
        '.' => Option::Some(6),
        ',' => Option::Some(7),
        '{' => Option::Some(8),
        '}' => Option::Some(9),
        '(' => Option::Some(10),
        ')' => Option::Some(11),
        'z' => Option::Some(12),
        '!' => Option::Some(13),
        's' => Option::Some(14),
        'S' => Option::Some(15),
        '|' => Option::Some(16),
        '&' => Option::Some(17),
        '*' => Option::Some(18),
        '^' => Option::Some(19),
        '$' => Option::Some(20),
        'a' => Option::Some(21),
        'd' => Option::Some(22),
        'q' => Option::Some(23),
        'm' => Option::Some(24),
        'p' => Option::Some(25),
        '@' => Option::Some(31),
        _ => Option::None,
    }
}

/// Given source code, create the instruction and data tapes. This never
/// fails: comments and unrecognized characters are dropped, and the halt
/// character's sentinel decides where the data segment begins.
pub fn source_to_tapes(source: &str) -> (r: (Vec<u8>, Vec<u32>))
    ensures
        r.0@ == tapes_of(source@).0,
        r.1@ == tapes_of(source@).1,
{
    let mut code: Vec<u8> = Vec::new();
    let mut data: Vec<u32> = Vec::new();
    // Code is the default state.
    let mut state: ParserState = ParserState::Code;

    let n = source.unicode_len();
    let mut i: usize = 0;
    proof {
        assert(source@.skip(0) =~= source@);
        assert(TransState { mode: state, code: code@, data: data@ } =~= translit_start());
    }
    while i < n
        invariant
            n == source@.len(),
            i <= n,
            translit_from(
                TransState { mode: state, code: code@, data: data@ },
                source@.skip(i as int),
            ) == translit_from(translit_start(), source@),
        decreases n - i,
    {
        let ghost pre = TransState { mode: state, code: code@, data: data@ };
        let character = source.get_char(i);
        match state {
            ParserState::Code => {
                if character == '#' {
                    state = ParserState::Comment;
                } else {
                    if character == '@' {
                        state = ParserState::ExpectingAt;
                    }
                    match char_to_instruction(character) {
                        Option::None => {},
                        Option::Some(op) => code.push(op),
                    }
                }
            },
            ParserState::Data => {
                data.push(character as u32);
            },
            ParserState::Comment => {
                if character == '#' {
                    state = ParserState::Code;
                }
            },
            ParserState::ExpectingAt => {
                if character == '@' {
                    state = ParserState::Data;
                } else {
                    match char_to_instruction(character) {
                        Option::None => {},
                        Option::Some(op) => code.push(op),
                    }
                }
            },
        }
        i = i + 1;
        proof {
            assert(TransState { mode: state, code: code@, data: data@ } =~= translit_step(
                pre,
                source@[i - 1],
            ));
            assert(source@.skip(i - 1).drop_first() =~= source@.skip(i as int));
            assert(translit_from(pre, source@.skip(i - 1)) == translit_from(
                translit_step(pre, source@.skip(i - 1).first()),
                source@.skip(i - 1).drop_first(),
            ));
        }
    }
    proof {
        assert(source@.skip(n as int) =~= Seq::<char>::empty());
    }
    (code, data)
}

} // verus!
