use zaa::prompt::{prompt_for_words, render_prompt, INSTRUCTION};
use zaa::text::join_words;

fn words(list: &[&str]) -> Vec<String> {
    list.iter().map(|w| w.to_string()).collect()
}

#[test]
fn prompt_is_instruction_then_text_then_newline() {
    let prompt = render_prompt("list files");
    assert_eq!(
        prompt,
        "Convert the following natural language into a one-line zsh command:\nlist files\n"
    );
}

#[test]
fn instruction_line_is_fixed() {
    assert_eq!(
        INSTRUCTION,
        "Convert the following natural language into a one-line zsh command:\n"
    );
}

#[test]
fn prompt_for_words_joins_with_single_spaces() {
    let prompt = prompt_for_words(&words(&["rename", "all", "*.txt", "to", "*.md"]));
    assert_eq!(
        prompt.as_bytes(),
        "Convert the following natural language into a one-line zsh command:\nrename all *.txt to *.md\n"
            .as_bytes()
    );
}

#[test]
fn prompt_for_one_word() {
    assert_eq!(prompt_for_words(&words(&["pwd"])), format!("{}pwd\n", INSTRUCTION));
}

#[test]
fn prompt_for_no_words_holds_an_empty_line() {
    assert_eq!(prompt_for_words(&words(&[])), format!("{}\n", INSTRUCTION));
}

#[test]
fn prompt_passes_control_characters_through() {
    let text = "a\tb\u{0}c\"d\\e\nf\u{1b}[0m";
    assert_eq!(render_prompt(text), format!("{}{}\n", INSTRUCTION, text));
}

#[test]
fn prompt_keeps_non_ascii_text() {
    let text = "zeige alle Dateien größer als 1 MB 📁";
    assert_eq!(render_prompt(text), format!("{}{}\n", INSTRUCTION, text));
}

#[test]
fn join_words_matches_slice_join() {
    let cases: Vec<Vec<String>> = vec![
        words(&[]),
        words(&["one"]),
        words(&["one", "two"]),
        words(&["", ""]),
        words(&["a b", " c", "d "]),
        words(&["find", ".", "-name", "*.rs"]),
    ];
    for case in cases {
        assert_eq!(join_words(&case), case.join(" "));
    }
}

#[test]
fn join_words_exact() {
    assert_eq!(join_words(&words(&["ls", "-la"])), "ls -la");
    assert_eq!(join_words(&words(&[])), "");
    assert_eq!(join_words(&words(&["", "x"])), " x");
}
