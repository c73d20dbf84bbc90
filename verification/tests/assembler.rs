use gems::assembler::{split, split_fragment, strip, EmitLine, StreamTextAssembler};

fn chars(text: &str) -> Vec<char> {
    text.chars().collect()
}

fn texts(pieces: Vec<Vec<char>>) -> Vec<String> {
    pieces
        .into_iter()
        .map(|piece| piece.into_iter().collect())
        .collect()
}

fn shown(lines: &[EmitLine]) -> Vec<String> {
    lines
        .iter()
        .map(|line| match line {
            EmitLine::Text(text) => text.clone(),
            EmitLine::Blank => String::new(),
        })
        .collect()
}

#[test]
fn split_cuts_at_each_separator() {
    assert_eq!(
        texts(split(&chars("a,b,,c"), &chars(","))),
        vec!["a", "b", "", "c"]
    );
    assert_eq!(texts(split(&chars("abc"), &chars(","))), vec!["abc"]);
    assert_eq!(texts(split(&chars(""), &chars(","))), vec![""]);
    assert_eq!(texts(split(&chars(","), &chars(","))), vec!["", ""]);
    assert_eq!(texts(split(&chars("a,"), &chars(","))), vec!["a", ""]);
}

#[test]
fn split_takes_separators_from_left_to_right() {
    assert_eq!(texts(split(&chars("aaa"), &chars("aa"))), vec!["", "a"]);
    assert_eq!(
        texts(split(&chars("1::2:::3"), &chars("::"))),
        vec!["1", "2", ":3"]
    );
}

#[test]
fn split_agrees_with_the_standard_library() {
    for text in ["", "x", "a\\nb", "\\n\\n", "a\\\\nb\\n", "no separator", "\\", "n\\"] {
        let expected: Vec<String> = text.split("\\n").map(|piece| piece.to_string()).collect();
        assert_eq!(texts(split(&chars(text), &chars("\\n"))), expected);
    }
}

#[test]
fn empty_separator_splits_nothing() {
    assert_eq!(texts(split(&chars("abc"), &chars(""))), vec!["abc"]);
}

#[test]
fn strip_removes_every_backslash() {
    assert_eq!(strip(&chars("a\\b\\\\c")), "abc");
    assert_eq!(strip(&chars("\\")), "");
    assert_eq!(strip(&chars("plain")), "plain");
    assert_eq!(strip(&chars("\\\"quoted\\\"")), "\"quoted\"");
}

#[test]
fn fragment_is_split_on_escaped_and_on_real_newlines() {
    assert_eq!(
        texts(split_fragment(&chars("one\\ntwo\nthree\\n\nfour"))),
        vec!["one", "two", "three", "", "four"]
    );
}

#[test]
fn absent_fragment_gives_no_line_and_keeps_the_message() {
    let mut assembler = StreamTextAssembler::new();
    assembler.push_fragment(Some("kept".to_string()));
    let lines = assembler.push_fragment(None);
    assert!(lines.is_empty());
    assert_eq!(assembler.message(), "kept");
}

#[test]
fn plain_fragment_is_one_line() {
    let mut assembler = StreamTextAssembler::new();
    let lines = assembler.push_fragment(Some("Hello".to_string()));
    assert_eq!(shown(&lines), vec!["Hello"]);
    assert!(matches!(lines[0], EmitLine::Text(_)));
    assert_eq!(assembler.message(), "Hello");
}

#[test]
fn escaped_newlines_separate_lines() {
    let mut assembler = StreamTextAssembler::new();
    let lines = assembler.push_fragment(Some("Hello\\nWorld".to_string()));
    assert_eq!(shown(&lines), vec!["Hello", "World"]);
    assert_eq!(assembler.message(), "HelloWorld");
}

#[test]
fn empty_pieces_are_blank_lines_and_add_nothing() {
    let mut assembler = StreamTextAssembler::new();
    let lines = assembler.push_fragment(Some("a\\n\\nb\\n".to_string()));
    assert_eq!(shown(&lines), vec!["a", "", "b", ""]);
    assert!(matches!(lines[0], EmitLine::Text(_)));
    assert!(matches!(lines[1], EmitLine::Blank));
    assert!(matches!(lines[2], EmitLine::Text(_)));
    assert!(matches!(lines[3], EmitLine::Blank));
    assert_eq!(assembler.message(), "ab");
}

#[test]
fn empty_fragment_is_one_blank_line() {
    let mut assembler = StreamTextAssembler::new();
    let lines = assembler.push_fragment(Some(String::new()));
    assert_eq!(lines.len(), 1);
    assert!(matches!(lines[0], EmitLine::Blank));
    assert!(lines[0].is_blank());
    assert_eq!(assembler.message(), "");
}

#[test]
fn piece_of_backslashes_alone_is_a_blank_line() {
    let mut assembler = StreamTextAssembler::new();
    let lines = assembler.push_fragment(Some("\\\\".to_string()));
    assert_eq!(lines.len(), 1);
    assert!(matches!(lines[0], EmitLine::Blank));
    assert_eq!(assembler.message(), "");
}

#[test]
fn backslashes_are_stripped_from_each_line() {
    let mut assembler = StreamTextAssembler::new();
    let lines = assembler.push_fragment(Some("say \\\"hi\\\"\\nC:\\\\dir".to_string()));
    assert_eq!(shown(&lines), vec!["say \"hi\"", "C:dir"]);
    assert_eq!(assembler.message(), "say \"hi\"C:dir");
}

#[test]
fn message_only_grows_at_its_end() {
    let mut assembler = StreamTextAssembler::new();
    let mut seen = String::new();
    for fragment in ["Once", " upon\\n", "", "a \\\\time\n", "."] {
        assembler.push_fragment(Some(fragment.to_string()));
        assert!(assembler.message().starts_with(&seen));
        seen = assembler.message().clone();
    }
    assert_eq!(assembler.finish(), "Once upona time.");
}
