use ion_shell::text::{
    ascii_replace, decimal_text, signed_decimal_text, split_lines, zero_padded_text,
};

#[test]
fn decimal_notation_has_no_leading_zeros() {
    assert_eq!(decimal_text(0), "0");
    assert_eq!(decimal_text(7), "7");
    assert_eq!(decimal_text(10), "10");
    assert_eq!(decimal_text(1907), "1907");
    assert_eq!(decimal_text(u64::MAX), "18446744073709551615");
}

#[test]
fn signed_notation_covers_every_status() {
    assert_eq!(signed_decimal_text(0), "0");
    assert_eq!(signed_decimal_text(127), "127");
    assert_eq!(signed_decimal_text(-1), "-1");
    assert_eq!(signed_decimal_text(i32::MIN), "-2147483648");
    assert_eq!(signed_decimal_text(i32::MAX), "2147483647");
}

#[test]
fn signed_notation_reads_back() {
    for code in [-300, -10, -9, 0, 9, 10, 255] {
        assert_eq!(signed_decimal_text(code).parse::<i32>(), Ok(code));
    }
}

#[test]
fn padding_fills_up_with_zeros() {
    assert_eq!(zero_padded_text(5, 9), "000000005");
    assert_eq!(zero_padded_text(0, 9), "000000000");
    assert_eq!(zero_padded_text(123456789, 9), "123456789");
    assert_eq!(zero_padded_text(1234567890, 9), "1234567890");
    assert_eq!(zero_padded_text(12, 0), "12");
}

#[test]
fn replacement_touches_one_character_only() {
    assert_eq!(ascii_replace("a\nb\n\nc", '\n', ' '), "a b  c");
    assert_eq!(ascii_replace("", '\n', ' '), "");
    assert_eq!(ascii_replace("gr\u{fc}n\nblau", '\n', ' '), "gr\u{fc}n blau");
}

#[test]
fn lines_agree_with_std() {
    for text in [
        "", "\n", "a", "a\n", "a\nb", "a\n\nb\n", "a\r\nb\r\n", "a\rb\n", "\r\n", "a\r", "\n\n",
        "let x = 1\necho $x\n", "z\u{fc}rich\r\n\u{1f980}",
    ] {
        let expected: Vec<String> = text.lines().map(|line| line.to_owned()).collect();
        assert_eq!(split_lines(text), expected);
    }
}

#[test]
fn final_line_feed_is_optional() {
    assert_eq!(split_lines("a\nb\n"), split_lines("a\nb"));
    assert_eq!(split_lines("a\nb\n"), vec!["a".to_owned(), "b".to_owned()]);
}

#[test]
fn written_lines_are_read_back() {
    let script = vec!["echo a".to_owned(), String::new(), "echo b".to_owned()];
    let mut text = String::new();
    for line in &script {
        text.push_str(line);
        text.push('\n');
    }
    assert_eq!(split_lines(&text), script);
}

#[test]
fn line_ends_do_not_matter() {
    let expected = vec!["echo a".to_owned(), String::new(), "echo b".to_owned()];
    for text in [
        "echo a\n\necho b\n",
        "echo a\r\n\r\necho b\r\n",
        "echo a\r\n\necho b\n",
        "echo a\n\r\necho b",
        "echo a\r\n\r\necho b",
    ] {
        assert_eq!(split_lines(text), expected);
    }
}

#[test]
fn bare_carriage_return_belongs_to_its_line() {
    assert_eq!(split_lines("a\r"), vec!["a\r".to_owned()]);
    assert_eq!(split_lines("a\r\r\n"), vec!["a\r".to_owned()]);
}

#[test]
fn line_that_ends_in_a_carriage_return_is_read_back() {
    let expected = vec!["a\r".to_owned(), "b\r".to_owned()];
    assert_eq!(split_lines("a\r\r\nb\r\r\n"), expected);
    assert_eq!(split_lines("a\r\r\nb\r"), expected);
}
