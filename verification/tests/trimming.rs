use zaa::text::{kept_span, trim, whitespace_marks};

#[test]
fn trim_removes_spaces_on_both_sides() {
    assert_eq!(trim("  ls -la  "), "ls -la");
}

#[test]
fn trim_keeps_inner_whitespace() {
    assert_eq!(trim("\n\tgit  log \t --oneline\r\n"), "git  log \t --oneline");
}

#[test]
fn trim_of_clean_text_is_the_text() {
    assert_eq!(trim("pwd"), "pwd");
    assert_eq!(trim("a b"), "a b");
}

#[test]
fn trim_of_empty_text_is_empty() {
    assert_eq!(trim(""), "");
}

#[test]
fn trim_of_whitespace_only_is_empty() {
    assert_eq!(trim(" \t\r\n \u{a0}\u{3000}"), "");
}

#[test]
fn trim_one_side_only() {
    assert_eq!(trim("   x"), "x");
    assert_eq!(trim("x   "), "x");
}

#[test]
fn trim_knows_unicode_whitespace() {
    assert_eq!(trim("\u{2003}\u{a0}echo hi\u{85}\u{2028}\u{3000}"), "echo hi");
}

#[test]
fn trim_keeps_what_is_no_whitespace() {
    // Zero width space and the escape character are no whitespace.
    assert_eq!(trim("\u{200b} x \u{200b}"), "\u{200b} x \u{200b}");
    assert_eq!(trim("\u{1b}[0m ls \u{0}"), "\u{1b}[0m ls \u{0}");
}

#[test]
fn trim_handles_multibyte_text() {
    assert_eq!(trim("  größe 📁 \n"), "größe 📁");
}

#[test]
fn trim_agrees_with_std() {
    let cases = [
        "",
        " ",
        "a",
        " a",
        "a ",
        " a ",
        "\t\ta b\t\t",
        "\u{b}\u{c}x\u{1c}\u{1d}\u{1e}\u{1f}",
        "\u{1680}y\u{2000}\u{200a}\u{202f}\u{205f}",
        "\u{180e}z\u{feff}",
        "for f in *.txt; do mv \"$f\" \"${f%.txt}.md\"; done\n",
        "\n\nls\n\n",
    ];
    for case in cases {
        assert_eq!(trim(case), case.trim(), "input {:?}", case);
    }
}

#[test]
fn trim_agrees_with_std_on_every_single_character() {
    for code in 0u32..0x3100 {
        if let Some(c) = char::from_u32(code) {
            let text = format!("{}x{}", c, c);
            assert_eq!(trim(&text), text.trim(), "character {:?}", c);
        }
    }
}

#[test]
fn trim_twice_is_trim_once() {
    let cases = ["  a  b  ", "\t", "x", " \u{a0}k\u{a0} "];
    for case in cases {
        assert_eq!(trim(trim(case)), trim(case));
    }
}

#[test]
fn marks_follow_the_characters() {
    assert_eq!(whitespace_marks(" a\tb\n"), vec![true, false, true, false, true]);
    assert_eq!(whitespace_marks(""), Vec::<bool>::new());
    assert_eq!(whitespace_marks("\u{a0}é📁\u{3000}"), vec![true, false, false, true]);
}

#[test]
fn marks_agree_with_std() {
    let text = " \t\u{85}x\u{200b}\u{2028}y\u{0}\u{1f} ";
    let expected: Vec<bool> = text.chars().map(|c| c.is_whitespace()).collect();
    assert_eq!(whitespace_marks(text), expected);
}

#[test]
fn kept_span_drops_marked_ends() {
    assert_eq!(kept_span(&vec![true, true, false, true, false, true]), (2, 5));
    assert_eq!(kept_span(&vec![false, true, true]), (0, 1));
    assert_eq!(kept_span(&vec![true, false]), (1, 2));
    assert_eq!(kept_span(&vec![false]), (0, 1));
}

#[test]
fn kept_span_of_nothing_marked_is_everything() {
    assert_eq!(kept_span(&vec![false, false, false]), (0, 3));
}

#[test]
fn kept_span_of_everything_marked_is_empty_at_the_end() {
    assert_eq!(kept_span(&vec![true, true, true]), (3, 3));
    assert_eq!(kept_span(&vec![]), (0, 0));
}
