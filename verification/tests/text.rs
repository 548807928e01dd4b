use nais_build::text::{
    digit, is_whitespace, le, same, sort, stack, strip_prefix, to_decimal, to_fixed_width, trim,
};

fn strings(items: &[&str]) -> Vec<String> {
    items.iter().map(|s| s.to_string()).collect()
}

#[test]
fn trim_removes_white_space_at_both_ends() {
    assert_eq!(trim("  a b \n"), "a b");
    assert_eq!(trim("\n\tx"), "x");
    assert_eq!(trim("x"), "x");
    assert_eq!(trim(""), "");
    assert_eq!(trim(" \n\t "), "");
    assert_eq!(trim("\u{a0}é\u{3000}"), "é");
}

#[test]
fn trim_agrees_with_the_standard_library() {
    let samples = [
        "", " ", "a", " a", "a ", "\u{85}a\u{85}", "\u{1680}x\u{2000}", "\u{200a}y\u{2028}",
        "\u{2029}z\u{202f}", "\u{205f}w\u{3000}", "\u{200b}v\u{200b}", "\u{b}\u{c}\r\nu",
        "\u{1c}t\u{1f}", "\u{feff}s",
    ];
    for sample in samples {
        assert_eq!(trim(sample), sample.trim());
    }
}

#[test]
fn white_space_agrees_with_the_standard_library() {
    let mut code: u32 = 0;
    while code <= 0x10ffff {
        if let Some(c) = char::from_u32(code) {
            assert_eq!(is_whitespace(c), c.is_whitespace());
        }
        code += 1;
    }
}

#[test]
fn same_compares_characters() {
    assert!(same("", ""));
    assert!(same("abc", "abc"));
    assert!(!same("abc", "abd"));
    assert!(!same("abc", "ab"));
    assert!(same("blåbær", "blåbær"));
}

#[test]
fn strip_prefix_removes_a_leading_prefix_only() {
    assert_eq!(strip_prefix("Bearer abc", "Bearer "), Some("abc".to_string()));
    assert_eq!(strip_prefix("abc", "Bearer "), None);
    assert_eq!(strip_prefix("Bearer ", "Bearer "), Some(String::new()));
    assert_eq!(strip_prefix("Bear", "Bearer "), None);
    assert_eq!(strip_prefix("abc", ""), Some("abc".to_string()));
    assert_eq!(strip_prefix("åbc", "å"), Some("bc".to_string()));
}

#[test]
fn le_orders_by_bytes() {
    assert!(le("", ""));
    assert!(le("", "a"));
    assert!(!le("a", ""));
    assert!(le("a", "b"));
    assert!(!le("b", "a"));
    assert!(le("ab", "abc"));
    assert!(!le("abc", "ab"));
    assert!(le("B", "a"));
    assert!(le("svcA", "svcB"));
    assert!(le("z", "å"));
}

#[test]
fn sort_puts_names_in_ascending_order() {
    assert_eq!(sort(&strings(&["svcB", "svcA"])), strings(&["svcA", "svcB"]));
    assert_eq!(sort(&strings(&["b", "a", "c", "a"])), strings(&["a", "a", "b", "c"]));
    assert_eq!(sort(&strings(&[])), strings(&[]));
    assert_eq!(sort(&strings(&["x"])), strings(&["x"]));
    assert_eq!(sort(&strings(&["ab", "a", "B", ""])), strings(&["", "B", "a", "ab"]));
}

#[test]
fn sort_agrees_with_the_standard_library() {
    let names = strings(&["delta", "alpha", "Charlie", "bravo", "alpha2", "", "ø", "zulu", "a"]);
    let mut expected = names.clone();
    expected.sort();
    assert_eq!(sort(&names), expected);
}

#[test]
fn stack_puts_every_line_after_a_line_break() {
    assert_eq!(stack(&strings(&[])), "");
    assert_eq!(stack(&strings(&["a"])), "\na");
    assert_eq!(stack(&strings(&["a", "b"])), "\na\nb");
}

#[test]
fn numbers_are_written_in_decimal() {
    assert_eq!(digit(0), "0");
    assert_eq!(digit(9), "9");
    assert_eq!(to_decimal(0), "0");
    assert_eq!(to_decimal(7), "7");
    assert_eq!(to_decimal(10), "10");
    assert_eq!(to_decimal(1069), "1069");
    assert_eq!(to_decimal(u64::MAX), u64::MAX.to_string());
}

#[test]
fn fixed_width_pads_with_zeros() {
    assert_eq!(to_fixed_width(7, 2), "07");
    assert_eq!(to_fixed_width(12, 2), "12");
    assert_eq!(to_fixed_width(2024, 4), "2024");
    assert_eq!(to_fixed_width(5, 4), "0005");
    assert_eq!(to_fixed_width(123, 2), "23");
    assert_eq!(to_fixed_width(1, 0), "");
}
