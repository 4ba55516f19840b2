use outlook_mail::text::{chars_of, contains, decimal, join, opt_text_copy, opt_text_eq, text_eq};

#[test]
fn decimal_renders_zero() {
    assert_eq!(decimal(0), "0");
}

#[test]
fn decimal_renders_single_and_many_digits() {
    assert_eq!(decimal(7), "7");
    assert_eq!(decimal(10), "10");
    assert_eq!(decimal(150), "150");
    assert_eq!(decimal(4294967295), "4294967295");
}

#[test]
fn decimal_agrees_with_std_on_a_range() {
    let mut n: usize = 0;
    while n < 2000 {
        assert_eq!(decimal(n), n.to_string());
        n += 1;
    }
}

#[test]
fn contains_finds_a_part_anywhere() {
    assert!(contains("Mail.ReadWrite", "Mail.Read"));
    assert!(contains("openid Mail.Read offline_access", "Mail.Read"));
    assert!(contains("xMail.Read", "Mail.Read"));
    assert!(!contains("Mail.Send", "Mail.Read"));
    assert!(!contains("Mail.Rea", "Mail.Read"));
    assert!(!contains("", "Mail.Read"));
}

#[test]
fn contains_takes_the_empty_needle_as_present() {
    assert!(contains("abc", ""));
    assert!(contains("", ""));
}

#[test]
fn contains_is_case_sensitive() {
    assert!(!contains("mail.read", "Mail.Read"));
}

#[test]
fn contains_works_on_characters_beyond_ascii() {
    assert!(contains("收件失败: 认证", "失败"));
    assert!(!contains("收件", "失败"));
}

#[test]
fn text_eq_compares_whole_texts() {
    assert!(text_eq("graph", "graph"));
    assert!(!text_eq("graph", "grap"));
    assert!(!text_eq("graph", "Graph"));
    assert!(text_eq("", ""));
}

#[test]
fn chars_of_lists_the_characters() {
    assert_eq!(chars_of("a封b"), vec!['a', '封', 'b']);
    assert_eq!(chars_of(""), Vec::<char>::new());
}

#[test]
fn join_puts_one_text_after_the_other() {
    assert_eq!(join("SINCE ", "01-Jan-2024"), "SINCE 01-Jan-2024");
    assert_eq!(join("", ""), "");
}

#[test]
fn optional_texts_compare_null_safely() {
    let a: Option<String> = None;
    let b: Option<String> = None;
    assert!(opt_text_eq(&a, &b));
    assert!(!opt_text_eq(&a, &Some(String::new())));
    assert!(!opt_text_eq(&Some("x".to_string()), &b));
    assert!(opt_text_eq(&Some("x".to_string()), &Some("x".to_string())));
    assert!(!opt_text_eq(&Some("x".to_string()), &Some("y".to_string())));
}

#[test]
fn optional_text_copy_keeps_the_value() {
    assert_eq!(opt_text_copy(&Some("x".to_string())), Some("x".to_string()));
    assert_eq!(opt_text_copy(&None), None);
}

#[test]
fn trim_agrees_with_std() {
    let samples = [
        "",
        " ",
        "\t\r\n",
        "a",
        "  a  ",
        "\u{3000}a b\u{2003}",
        "a\u{a0}",
        "\u{85}\u{1680}x\u{2028}\u{2029}\u{202f}\u{205f}",
        "\u{200b}zero width is no space\u{200b}",
        "  封  邮件  ",
    ];
    for sample in samples {
        assert_eq!(outlook_mail::text::trim(sample), sample.trim(), "{:?}", sample);
    }
}

#[test]
fn split_agrees_with_std() {
    let samples = [
        "",
        "a",
        "----",
        "a----b",
        "a----b----c----d",
        "----a----",
        "a--------b",
        "a-----b",
        "a------b",
        "---",
        "a---b----c",
        "封----邮件",
    ];
    for sample in samples {
        let expected: Vec<String> = sample.split("----").map(|p| p.to_string()).collect();
        assert_eq!(outlook_mail::text::split(sample, "----"), expected, "{:?}", sample);
    }
    let expected: Vec<String> = "a,b,,c".split(",").map(|p| p.to_string()).collect();
    assert_eq!(outlook_mail::text::split("a,b,,c", ","), expected);
    let expected: Vec<String> = "aaa".split("aa").map(|p| p.to_string()).collect();
    assert_eq!(outlook_mail::text::split("aaa", "aa"), expected);
}

#[test]
fn split_on_nothing_gives_the_whole_text() {
    assert_eq!(outlook_mail::text::split("abc", ""), vec!["abc".to_string()]);
    assert_eq!(outlook_mail::text::split("", ""), vec![String::new()]);
}

#[test]
fn lines_agree_with_std() {
    let samples = [
        "",
        "a",
        "a\n",
        "a\nb",
        "a\r\nb\r\n",
        "\n",
        "\n\n",
        "\r\n",
        "a\r",
        "a\r\r\n",
        "a\rb\nc",
        "\r",
        "x\n\ny\n",
        "封\r\n邮件",
    ];
    for sample in samples {
        let expected: Vec<String> = sample.lines().map(|l| l.to_string()).collect();
        assert_eq!(outlook_mail::text::lines(sample), expected, "{:?}", sample);
    }
}

#[test]
fn every_white_space_character_is_trimmed() {
    let mut code: u32 = 0;
    while code <= 0x10ffff {
        if let Some(c) = char::from_u32(code) {
            let text = format!("{}x{}", c, c);
            if c.is_whitespace() {
                assert_eq!(outlook_mail::text::trim(&text), "x");
            } else {
                assert_eq!(outlook_mail::text::trim(&text), text.as_str());
            }
        }
        code += 0x101;
    }
    for c in ['\t', '\n', '\u{b}', '\u{c}', '\r', ' ', '\u{85}', '\u{a0}', '\u{1680}', '\u{2000}', '\u{200a}', '\u{2028}', '\u{2029}', '\u{202f}', '\u{205f}', '\u{3000}'] {
        let text = format!("{}x{}", c, c);
        assert_eq!(outlook_mail::text::trim(&text), "x");
    }
}
