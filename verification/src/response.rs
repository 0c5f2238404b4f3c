//! The answer of the completion service, and the command taken from it.

use crate::error::{plain_error, Error, ErrorKind, ErrorView};
use crate::text::{trim, trimmed};
use vstd::prelude::*;

verus! {

/// Per-token log-probabilities of one choice. Each probability is kept as the
/// bit pattern of its 32-bit floating-point value; nothing here reads them.
#[derive(Debug)]
pub struct Logprobs {
    pub tokens: Vec<String>,
    pub token_logprobs: Vec<u32>,
}

/// A [`Logprobs`] as a plain value.
pub struct LogprobsView {
    pub tokens: Seq<Seq<char>>,
    pub token_logprobs: Seq<u32>,
}

impl View for Logprobs {
    type V = LogprobsView;

    open spec fn view(&self) -> LogprobsView {
        LogprobsView { tokens: self.tokens.deep_view(), token_logprobs: self.token_logprobs@ }
    }
}

/// One candidate completion. Candidates are ranked by their position in the
/// response.
#[derive(Debug)]
pub struct Choice {
    pub text: String,
    pub index: i32,
    pub logprobs: Option<Logprobs>,
}

/// A [`Choice`] as a plain value.
pub struct ChoiceView {
    pub text: Seq<char>,
    pub index: i32,
    pub logprobs: Option<LogprobsView>,
}

impl View for Choice {
    type V = ChoiceView;

    open spec fn view(&self) -> ChoiceView {
        ChoiceView {
            text: self.text@,
            index: self.index,
            logprobs: match self.logprobs {
                Some(l) => Some(l@),
                None => None,
            },
        }
    }
}

/// The parsed response body.
#[derive(Debug)]
pub struct CompletionResponse {
    pub choices: Vec<Choice>,
}

/// A [`CompletionResponse`] as a plain value.
pub struct CompletionResponseView {
    pub choices: Seq<ChoiceView>,
}

impl View for CompletionResponse {
    type V = CompletionResponseView;

    open spec fn view(&self) -> CompletionResponseView {
        CompletionResponseView { choices: self.choices@.map_values(|c: Choice| c@) }
    }
}

/// The command a response stands for: the text of its first choice without
/// leading and trailing whitespace. A response without choices stands for none.
pub open spec fn command_of(response: CompletionResponseView) -> Result<Seq<char>, ErrorView> {
    if response.choices.len() == 0 {
        Err(plain_error(ErrorKind::NoChoices))
    } else {
        Ok(trimmed(response.choices[0].text))
    }
}

/// Takes the command from a response: the trimmed text of the first choice,
/// or the error `NoChoices` where the response holds none.
pub fn extract_command(response: &CompletionResponse) -> (r: Result<String, Error>)
    ensures
        match command_of(response@) {
            Ok(command) => r matches Ok(c) && c@ == command,
            Err(error) => r matches Err(e) && e@ == error,
        },
{
    if response.choices.len() == 0 {
        Err(Error::new(ErrorKind::NoChoices))
    } else {
        let command = trim(response.choices[0].text.as_str());
        Ok(String::from_str(command))
    }
}

/// Only the first choice counts: two responses that agree on the text of
/// their first choice stand for the same command, whatever else they hold.
pub proof fn lemma_first_choice_decides(a: CompletionResponseView, b: CompletionResponseView)
    requires
        a.choices.len() > 0,
        b.choices.len() > 0,
        a.choices[0].text == b.choices[0].text,
    ensures
        command_of(a) == command_of(b),
{
}

} // verus!
