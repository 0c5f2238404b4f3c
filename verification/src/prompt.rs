//! The prompt: the fixed instruction line, then the user's text, then a newline.

use crate::text::{join_words, joined};
use vstd::prelude::*;

verus! {

/// The instruction that opens every prompt, with its newline.
pub const INSTRUCTION: &'static str =
    "Convert the following natural language into a one-line zsh command:\n";

/// The prompt for the description `english`: the instruction line, `english`
/// as it stands, and one newline.
pub open spec fn prompt_text(english: Seq<char>) -> Seq<char> {
    INSTRUCTION@ + english + seq!['\n']
}

/// Renders the prompt for `english`. Nothing in `english` is escaped, cut or
/// cleaned.
pub fn render_prompt(english: &str) -> (prompt: String)
    ensures
        prompt@ == prompt_text(english@),
{
    proof {
        reveal_strlit("\n");
        assert("\n"@ =~= seq!['\n']);
    }
    let mut prompt = String::from_str(INSTRUCTION);
    prompt.append(english);
    prompt.append("\n");
    prompt
}

/// Renders the prompt for a description given word by word: the words are
/// joined with single spaces.
pub fn prompt_for_words(words: &Vec<String>) -> (prompt: String)
    ensures
        prompt@ == INSTRUCTION@ + joined(words.deep_view()) + seq!['\n'],
{
    let english = join_words(words);
    render_prompt(english.as_str())
}

/// The user's text stands in the prompt unchanged, between the instruction
/// line and the closing newline, whatever characters it holds.
pub proof fn lemma_prompt_holds_text(english: Seq<char>)
    ensures
        prompt_text(english).len() == INSTRUCTION@.len() + english.len() + 1,
        prompt_text(english).subrange(0, INSTRUCTION@.len() as int) == INSTRUCTION@,
        prompt_text(english).subrange(
            INSTRUCTION@.len() as int,
            (INSTRUCTION@.len() + english.len()) as int,
        ) == english,
        prompt_text(english).last() == '\n',
{
    let p = prompt_text(english);
    assert(p.subrange(0, INSTRUCTION@.len() as int) =~= INSTRUCTION@);
    assert(p.subrange(INSTRUCTION@.len() as int, (INSTRUCTION@.len() + english.len()) as int)
        =~= english);
}

/// Different descriptions give different prompts.
pub proof fn lemma_prompt_injective(a: Seq<char>, b: Seq<char>)
    requires
        prompt_text(a) == prompt_text(b),
    ensures
        a == b,
{
    lemma_prompt_holds_text(a);
    lemma_prompt_holds_text(b);
}

} // verus!
