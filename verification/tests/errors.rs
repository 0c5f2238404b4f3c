use zaa::error::{Error, ErrorKind};

#[test]
fn missing_credential_file_names_file_and_format() {
    let message = Error::new(ErrorKind::MissingCredentialFile).message();
    assert_eq!(
        message,
        "Failed to load ~/.zaa file. Create a .zaa file with OPENAI_API_KEY=<your key> in your home directory."
    );
    assert!(message.contains("~/.zaa"));
    assert!(message.contains("OPENAI_API_KEY=<your key>"));
}

#[test]
fn missing_api_key_names_the_key() {
    let message = Error::new(ErrorKind::MissingApiKey).message();
    assert_eq!(
        message,
        "OPENAI_API_KEY is not defined. Add the line OPENAI_API_KEY=<your key> to the ~/.zaa file."
    );
}

#[test]
fn invalid_api_key_message() {
    assert_eq!(
        Error::new(ErrorKind::InvalidApiKey).message(),
        "OPENAI_API_KEY holds a character that cannot stand in an HTTP header value."
    );
}

#[test]
fn transport_message_passes_the_diagnostic_on() {
    let error = Error::with_detail(ErrorKind::Transport, "connection refused".to_string());
    assert_eq!(
        error.message(),
        "Request to the completion service failed: connection refused"
    );
}

#[test]
fn malformed_response_message_passes_the_diagnostic_on() {
    let error = Error::with_detail(
        ErrorKind::MalformedResponse,
        "missing field `choices` at line 1 column 2".to_string(),
    );
    assert_eq!(
        error.message(),
        "Unexpected response from the completion service: missing field `choices` at line 1 column 2"
    );
}

#[test]
fn no_choices_message() {
    assert_eq!(
        Error::new(ErrorKind::NoChoices).message(),
        "The completion service returned no choices."
    );
}

#[test]
fn clipboard_message_passes_the_diagnostic_on() {
    let error = Error::with_detail(ErrorKind::Clipboard, "no display".to_string());
    assert_eq!(error.message(), "Clipboard failed: no display");
}

#[test]
fn out_of_order_message() {
    assert_eq!(
        Error::new(ErrorKind::OutOfOrder).message(),
        "A step of the run was reported out of order."
    );
}

#[test]
fn kinds_without_diagnostic_ignore_it() {
    let error = Error::with_detail(ErrorKind::NoChoices, "ignored".to_string());
    assert_eq!(error.message(), "The completion service returned no choices.");
}

#[test]
fn new_error_has_no_detail() {
    let error = Error::new(ErrorKind::Transport);
    assert_eq!(error.kind, ErrorKind::Transport);
    assert_eq!(error.detail, "");
    assert_eq!(error.message(), "Request to the completion service failed: ");
}
