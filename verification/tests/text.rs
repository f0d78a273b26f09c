use dismantler::text::{
    clone_texts, contains_text, decimal_text, escape, push_joined, push_terminated, same_text,
    strip_spaces,
};

fn texts(items: &[&str]) -> Vec<String> {
    items.iter().map(|item| item.to_string()).collect()
}

#[test]
fn decimal_of_one_digit() {
    assert_eq!(decimal_text(0), "0");
    assert_eq!(decimal_text(1), "1");
    assert_eq!(decimal_text(7), "7");
    assert_eq!(decimal_text(9), "9");
}

#[test]
fn decimal_of_several_digits() {
    assert_eq!(decimal_text(10), "10");
    assert_eq!(decimal_text(11), "11");
    assert_eq!(decimal_text(99), "99");
    assert_eq!(decimal_text(100), "100");
    assert_eq!(decimal_text(1234567890), "1234567890");
}

#[test]
fn decimal_of_the_largest_index() {
    assert_eq!(decimal_text(usize::MAX), usize::MAX.to_string());
}

#[test]
fn decimal_agrees_with_std() {
    let mut n: usize = 0;
    while n < 2500 {
        assert_eq!(decimal_text(n), n.to_string());
        n += 1;
    }
}

#[test]
fn strip_spaces_removes_every_space() {
    assert_eq!(strip_spaces("Vec < T >"), "Vec<T>");
    assert_eq!(strip_spaces("& 'a mut [T ; N]"), "&'amut[T;N]");
    assert_eq!(strip_spaces("   "), "");
    assert_eq!(strip_spaces(""), "");
    assert_eq!(strip_spaces("i32"), "i32");
}

#[test]
fn strip_spaces_keeps_other_white_space() {
    assert_eq!(strip_spaces("a \tb\n c"), "a\tb\nc");
    assert_eq!(strip_spaces("\u{a0} x"), "\u{a0}x");
}

#[test]
fn strip_spaces_keeps_wide_characters() {
    assert_eq!(strip_spaces("é ü 漢 字"), "éü漢字");
}

#[test]
fn escape_leaves_plain_text() {
    assert_eq!(escape(""), "");
    assert_eq!(escape("Field `a` of `Pair`, of type `i32`."), "Field `a` of `Pair`, of type `i32`.");
    assert_eq!(escape("é漢 'x' {y}"), "é漢 'x' {y}");
}

#[test]
fn escape_quotes_and_backslashes() {
    assert_eq!(escape("a\"b"), "a\\\"b");
    assert_eq!(escape("a\\b"), "a\\\\b");
    assert_eq!(escape("\\\""), "\\\\\\\"");
}

#[test]
fn escape_control_characters() {
    assert_eq!(escape("a\nb"), "a\\nb");
    assert_eq!(escape("\r"), "\\r");
    assert_eq!(escape("\t"), "\\t");
    assert_eq!(escape("\0"), "\\0");
    assert_eq!(escape("\n\r\t\0"), "\\n\\r\\t\\0");
}

#[test]
fn escaped_text_reads_back_as_a_literal() {
    for text in ["plain", "a\"b\\c", "line\nnext\r\n\ttab\0end", "```text\nstruct S;\n```", "é漢 \\n"] {
        let literal = format!("\"{}\"", escape(text));
        let parsed = syn::parse_str::<syn::LitStr>(&literal).unwrap();
        assert_eq!(parsed.value(), text);
    }
}

#[test]
fn push_terminated_appends_each_item_and_the_end() {
    let mut out = String::from("x");
    push_terminated(&mut out, &texts(&["a", "bc", ""]), "; ");
    assert_eq!(out, "xa; bc; ; ");
}

#[test]
fn push_terminated_of_nothing_appends_nothing() {
    let mut out = String::from("x");
    push_terminated(&mut out, &Vec::new(), "; ");
    assert_eq!(out, "x");
}

#[test]
fn push_joined_appends_each_item() {
    let mut out = String::from("x");
    push_joined(&mut out, &texts(&["a", "", "bc"]));
    assert_eq!(out, "xabc");
    push_joined(&mut out, &Vec::new());
    assert_eq!(out, "xabc");
}

#[test]
fn clone_texts_copies_in_order() {
    let items = texts(&["b", "a", "b", ""]);
    assert_eq!(clone_texts(&items), items);
    assert_eq!(clone_texts(&Vec::new()), Vec::<String>::new());
}

#[test]
fn contains_text_finds_whole_items_only() {
    let items = texts(&["Vec", "T", "Option"]);
    assert!(contains_text(&items, "T"));
    assert!(contains_text(&items, "Option"));
    assert!(!contains_text(&items, "Opt"));
    assert!(!contains_text(&items, "t"));
    assert!(!contains_text(&items, ""));
    assert!(!contains_text(&Vec::new(), "T"));
}

#[test]
fn same_text_compares_every_character() {
    assert!(same_text("", ""));
    assert!(same_text("T", "T"));
    assert!(same_text("漢字", "漢字"));
    assert!(!same_text("T", "U"));
    assert!(!same_text("T", "TT"));
    assert!(!same_text("TT", "T"));
    assert!(!same_text("ab", "ba"));
    assert!(!same_text("é", "e"));
}
