//! The one error type of a run, and the message each error is reported with.

use vstd::prelude::*;

verus! {

/// What went wrong. Every kind ends the run.
#[derive(Clone, Copy, Debug, PartialEq, Eq, Structural)]
pub enum ErrorKind {
    /// Configuration: the credential file could not be loaded.
    MissingCredentialFile,
    /// Configuration: the credential file does not define the API key.
    MissingApiKey,
    /// Configuration: the API key cannot stand in an HTTP header value.
    InvalidApiKey,
    /// Transport: the exchange with the completion service failed.
    Transport,
    /// Protocol: the response body does not have the expected shape.
    MalformedResponse,
    /// Logic: the response holds no choice.
    NoChoices,
    /// The clipboard could not be opened or written.
    Clipboard,
    /// An event arrived that the current stage of the run does not wait for.
    OutOfOrder,
}

pub const MISSING_CREDENTIAL_FILE: &'static str =
    "Failed to load ~/.zaa file. Create a .zaa file with OPENAI_API_KEY=<your key> in your home directory.";

pub const MISSING_API_KEY: &'static str =
    "OPENAI_API_KEY is not defined. Add the line OPENAI_API_KEY=<your key> to the ~/.zaa file.";

pub const INVALID_API_KEY: &'static str =
    "OPENAI_API_KEY holds a character that cannot stand in an HTTP header value.";

pub const TRANSPORT_FAILED: &'static str = "Request to the completion service failed: ";

pub const MALFORMED_RESPONSE: &'static str = "Unexpected response from the completion service: ";

pub const NO_CHOICES: &'static str = "The completion service returned no choices.";

pub const CLIPBOARD_FAILED: &'static str = "Clipboard failed: ";

pub const OUT_OF_ORDER: &'static str = "A step of the run was reported out of order.";

/// An error of a run: its kind and, where a lower layer produced one, that
/// layer's own diagnostic.
#[derive(Debug)]
pub struct Error {
    pub kind: ErrorKind,
    pub detail: String,
}

/// An [`Error`] as a plain value.
pub struct ErrorView {
    pub kind: ErrorKind,
    pub detail: Seq<char>,
}

impl View for Error {
    type V = ErrorView;

    open spec fn view(&self) -> ErrorView {
        ErrorView { kind: self.kind, detail: self.detail@ }
    }
}

/// Whether errors of this kind carry the diagnostic of the layer that failed.
pub open spec fn carries_detail(kind: ErrorKind) -> bool {
    kind == ErrorKind::Transport || kind == ErrorKind::MalformedResponse || kind
        == ErrorKind::Clipboard
}

/// The fixed part of the message of each kind.
pub open spec fn heading(kind: ErrorKind) -> Seq<char> {
    match kind {
        ErrorKind::MissingCredentialFile => MISSING_CREDENTIAL_FILE@,
        ErrorKind::MissingApiKey => MISSING_API_KEY@,
        ErrorKind::InvalidApiKey => INVALID_API_KEY@,
        ErrorKind::Transport => TRANSPORT_FAILED@,
        ErrorKind::MalformedResponse => MALFORMED_RESPONSE@,
        ErrorKind::NoChoices => NO_CHOICES@,
        ErrorKind::Clipboard => CLIPBOARD_FAILED@,
        ErrorKind::OutOfOrder => OUT_OF_ORDER@,
    }
}

/// The message an error is reported with: the heading of its kind, followed by
/// the lower layer's diagnostic for the kinds that carry one.
pub open spec fn message_text(e: ErrorView) -> Seq<char> {
    if carries_detail(e.kind) {
        heading(e.kind) + e.detail
    } else {
        heading(e.kind)
    }
}

/// The error of kind `kind` with no diagnostic.
pub open spec fn plain_error(kind: ErrorKind) -> ErrorView {
    ErrorView { kind, detail: Seq::empty() }
}

impl Error {
    /// An error of a kind that has no diagnostic of a lower layer.
    pub fn new(kind: ErrorKind) -> (e: Error)
        ensures
            e@ == plain_error(kind),
    {
        Error { kind, detail: String::new() }
    }

    /// An error that passes on the diagnostic of the layer that failed.
    pub fn with_detail(kind: ErrorKind, detail: String) -> (e: Error)
        ensures
            e@ == (ErrorView { kind, detail: detail@ }),
    {
        Error { kind, detail }
    }

    /// The message to report this error with.
    pub fn message(&self) -> (m: String)
        ensures
            m@ == message_text(self@),
    {
        let head = match self.kind {
            ErrorKind::MissingCredentialFile => MISSING_CREDENTIAL_FILE,
            ErrorKind::MissingApiKey => MISSING_API_KEY,
            ErrorKind::InvalidApiKey => INVALID_API_KEY,
            ErrorKind::Transport => TRANSPORT_FAILED,
            ErrorKind::MalformedResponse => MALFORMED_RESPONSE,
            ErrorKind::NoChoices => NO_CHOICES,
            ErrorKind::Clipboard => CLIPBOARD_FAILED,
            ErrorKind::OutOfOrder => OUT_OF_ORDER,
        };
        let mut m = String::from_str(head);
        match self.kind {
            ErrorKind::Transport | ErrorKind::MalformedResponse | ErrorKind::Clipboard => {
                m.append(self.detail.as_str());
            },
            _ => {},
        }
        m
    }
}

} // verus!
