use russet_trust::console::{line_step, KeyPress, LineStep};
use russet_trust::parser::{Command, CommandArgument, CommandError};

fn s(text: &str) -> String {
    String::from(text)
}

#[test]
fn plain_command_with_names() {
    let cmd = Command::build("run a b").unwrap();
    assert_eq!(cmd.command, s("run"));
    assert!(cmd.args.is_empty());
    assert_eq!(cmd.names, vec![s("a"), s("b")]);
}

#[test]
fn empty_line_gives_empty_command() {
    let cmd = Command::build("").unwrap();
    assert_eq!(cmd.command, s(""));
    assert!(cmd.args.is_empty());
    assert!(cmd.names.is_empty());
}

#[test]
fn surrounding_whitespace_is_trimmed() {
    let cmd = Command::build("  run  \t").unwrap();
    assert_eq!(cmd.command, s("run"));
    assert!(cmd.names.is_empty());
}

#[test]
fn flags_values_and_names() {
    let cmd = Command::build("prog --verbose --out=file.txt -xy rest").unwrap();
    assert_eq!(cmd.command, s("prog"));
    assert_eq!(
        cmd.args,
        vec![
            (s("verbose"), CommandArgument::Anonymous),
            (s("out"), CommandArgument::Value(s("file.txt"))),
            (s("x"), CommandArgument::Anonymous),
            (s("y"), CommandArgument::Anonymous),
        ]
    );
    assert_eq!(cmd.names, vec![s("rest")]);
}

#[test]
fn double_quotes_keep_spaces() {
    let cmd = Command::build("echo \"hello world\"").unwrap();
    assert_eq!(cmd.names, vec![s("hello world")]);
}

#[test]
fn single_quotes_keep_spaces() {
    let cmd = Command::build("echo 'one two'").unwrap();
    assert_eq!(cmd.names, vec![s("one two")]);
}

#[test]
fn named_escapes_are_decoded() {
    let cmd = Command::build("echo a\\nb\\tc").unwrap();
    assert_eq!(cmd.names, vec![s("a\nb\tc")]);
}

#[test]
fn lone_backslashes_are_dropped() {
    let cmd = Command::build("echo a\\xb").unwrap();
    assert_eq!(cmd.names, vec![s("axb")]);
}

#[test]
fn backslash_does_not_escape_a_space() {
    let cmd = Command::build("a\\ b").unwrap();
    assert_eq!(cmd.command, s("a"));
    assert_eq!(cmd.names, vec![s("b")]);
}

#[test]
fn mismatched_double_quote() {
    assert_eq!(
        Command::build("echo \"abc").unwrap_err(),
        CommandError::MismatchedQuotes
    );
}

#[test]
fn mismatched_single_quote() {
    assert_eq!(
        Command::build("echo 'abc").unwrap_err(),
        CommandError::MismatchedQuotes
    );
}

#[test]
fn trailing_lone_quote() {
    assert_eq!(
        Command::build("a \"").unwrap_err(),
        CommandError::MismatchedQuotes
    );
}

#[test]
fn repeated_argument_keeps_last_value() {
    let cmd = Command::build("p --a=1 --a=2").unwrap();
    assert_eq!(cmd.args, vec![(s("a"), CommandArgument::Value(s("2")))]);
}

#[test]
fn repeated_flag_characters_collapse() {
    let cmd = Command::build("p -aba").unwrap();
    assert_eq!(
        cmd.args,
        vec![
            (s("a"), CommandArgument::Anonymous),
            (s("b"), CommandArgument::Anonymous),
        ]
    );
}

#[test]
fn consecutive_spaces_give_an_empty_name() {
    let cmd = Command::build("cmd  x").unwrap();
    assert_eq!(cmd.names, vec![s(""), s("x")]);
}

#[test]
fn quoted_argument_value() {
    let cmd = Command::build("p --k=\"v w\"").unwrap();
    assert_eq!(cmd.args, vec![(s("k"), CommandArgument::Value(s("v w")))]);
}

#[test]
fn value_stops_at_second_equals() {
    let cmd = Command::build("p --a=b=c").unwrap();
    assert_eq!(cmd.args, vec![(s("a"), CommandArgument::Value(s("b")))]);
}

#[test]
fn serialization_layout() {
    // The arguments stand in reverse name order; the byte stream orders
    // them by name.
    let cmd = Command {
        command: s("ls"),
        args: vec![
            (s("k"), CommandArgument::Value(s("v"))),
            (s("a"), CommandArgument::Anonymous),
        ],
        names: vec![s("x")],
    };
    let mut expected: Vec<u8> = Vec::new();
    expected.extend_from_slice(&2u64.to_le_bytes());
    expected.extend_from_slice(b"ls");
    expected.extend_from_slice(&2u64.to_le_bytes());
    expected.push(0);
    expected.extend_from_slice(&1u64.to_le_bytes());
    expected.extend_from_slice(b"a");
    expected.push(1);
    expected.extend_from_slice(&1u64.to_le_bytes());
    expected.extend_from_slice(b"k");
    expected.extend_from_slice(&1u64.to_le_bytes());
    expected.extend_from_slice(b"v");
    expected.extend_from_slice(&1u64.to_le_bytes());
    expected.extend_from_slice(&1u64.to_le_bytes());
    expected.extend_from_slice(b"x");
    assert_eq!(cmd.to_bytes(), expected);
}

#[test]
fn arguments_serialize_in_name_order() {
    // The parsed vector keeps first-appearance order; the serialization
    // orders the named arguments by name, independent of that order.
    let cmd = Command::build("p --b --a=1").unwrap();
    assert_eq!(
        cmd.args,
        vec![
            (s("b"), CommandArgument::Anonymous),
            (s("a"), CommandArgument::Value(s("1"))),
        ]
    );
    let mut expected: Vec<u8> = Vec::new();
    expected.extend_from_slice(&1u64.to_le_bytes());
    expected.extend_from_slice(b"p");
    expected.extend_from_slice(&2u64.to_le_bytes());
    expected.push(1);
    expected.extend_from_slice(&1u64.to_le_bytes());
    expected.extend_from_slice(b"a");
    expected.extend_from_slice(&1u64.to_le_bytes());
    expected.extend_from_slice(b"1");
    expected.push(0);
    expected.extend_from_slice(&1u64.to_le_bytes());
    expected.extend_from_slice(b"b");
    expected.extend_from_slice(&0u64.to_le_bytes());
    assert_eq!(cmd.to_bytes(), expected);
}

#[test]
fn serialization_uses_utf8_byte_lengths() {
    let cmd = Command {
        command: s("héllo"),
        args: Vec::new(),
        names: Vec::new(),
    };
    let bytes = cmd.to_bytes();
    assert_eq!(&bytes[0..8], &6u64.to_le_bytes());
    assert_eq!(&bytes[8..14], "héllo".as_bytes());
}

#[test]
fn built_command_serializes() {
    let cmd = Command::build("run --flag name").unwrap();
    let mut expected: Vec<u8> = Vec::new();
    expected.extend_from_slice(&3u64.to_le_bytes());
    expected.extend_from_slice(b"run");
    expected.extend_from_slice(&1u64.to_le_bytes());
    expected.push(0);
    expected.extend_from_slice(&4u64.to_le_bytes());
    expected.extend_from_slice(b"flag");
    expected.extend_from_slice(&1u64.to_le_bytes());
    expected.extend_from_slice(&4u64.to_le_bytes());
    expected.extend_from_slice(b"name");
    assert_eq!(cmd.to_bytes(), expected);
}

#[test]
fn line_editing_session() {
    let mut buffer: Vec<char> = Vec::new();

    assert!(matches!(
        line_step(&mut buffer, KeyPress::Printable('h')),
        LineStep::EchoChar('h')
    ));
    assert!(matches!(
        line_step(&mut buffer, KeyPress::Printable('i')),
        LineStep::EchoChar('i')
    ));
    assert_eq!(buffer, vec!['h', 'i']);

    assert!(matches!(
        line_step(&mut buffer, KeyPress::Printable('\u{8}')),
        LineStep::EraseChar
    ));
    assert_eq!(buffer, vec!['h']);

    assert!(matches!(
        line_step(&mut buffer, KeyPress::Other),
        LineStep::Ignored
    ));
    assert_eq!(buffer, vec!['h']);

    assert!(matches!(
        line_step(&mut buffer, KeyPress::Printable('\r')),
        LineStep::Submit
    ));
    assert_eq!(buffer, vec!['h']);
}

#[test]
fn backspace_on_empty_line_is_ignored() {
    let mut buffer: Vec<char> = Vec::new();
    assert!(matches!(
        line_step(&mut buffer, KeyPress::Printable('\u{8}')),
        LineStep::Ignored
    ));
    assert!(buffer.is_empty());
}

#[test]
fn interrupt_abandons_the_line() {
    let mut buffer: Vec<char> = vec!['l', 's'];
    assert!(matches!(
        line_step(&mut buffer, KeyPress::Printable('\u{3}')),
        LineStep::Cancel
    ));
    assert!(buffer.is_empty());
}
