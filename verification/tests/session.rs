use zaa::error::ErrorKind;
use zaa::response::{Choice, CompletionResponse};
use zaa::session::{Action, Event, Session, Stage, LABEL};

fn words(list: &[&str]) -> Vec<String> {
    list.iter().map(|w| w.to_string()).collect()
}

fn reply(text: &str) -> Event {
    Event::ReplyReceived {
        response: CompletionResponse {
            choices: vec![Choice { text: text.to_string(), index: 0, logprobs: None }],
        },
    }
}

fn loaded(key: &str) -> Event {
    Event::CredentialLoaded { api_key: key.to_string() }
}

fn every_event() -> Vec<Event> {
    vec![
        loaded("sk-test"),
        Event::CredentialFileMissing,
        Event::ApiKeyMissing,
        reply("ls"),
        Event::TransportFailed { detail: "again".to_string() },
        Event::ReplyMalformed { detail: "again".to_string() },
        Event::Delivered,
        Event::ClipboardFailed { detail: "again".to_string() },
    ]
}

fn abort_kind(action: &Action) -> ErrorKind {
    match action {
        Action::Abort { error } => error.kind,
        other => panic!("expected an abort, got {:?}", other),
    }
}

#[test]
fn run_begins_by_loading_the_credential() {
    let (session, action) = Session::begin(&words(&["list", "files"]));
    assert!(matches!(action, Action::LoadCredential));
    assert_eq!(session.stage(), Stage::AwaitingCredential);
    assert_eq!(session.english(), "list files");
    assert!(!session.is_over());
}

#[test]
fn end_to_end_rename() {
    let (session, _) = Session::begin(&words(&["rename", "all", "*.txt", "to", "*.md"]));
    assert_eq!(session.english(), "rename all *.txt to *.md");

    let (session, action) = session.step(loaded("sk-test"));
    assert_eq!(session.stage(), Stage::AwaitingReply);
    let request = match action {
        Action::Send { request } => request,
        other => panic!("expected a request, got {:?}", other),
    };
    let body: serde_json::Value = serde_json::from_str(&request.body).unwrap();
    assert_eq!(
        body["prompt"].as_str(),
        Some("Convert the following natural language into a one-line zsh command:\nrename all *.txt to *.md\n")
    );
    assert_eq!(request.headers[1].value, "Bearer sk-test");

    let command = "for f in *.txt; do mv \"$f\" \"${f%.txt}.md\"; done";
    let (session, action) = session.step(reply(command));
    assert_eq!(session.stage(), Stage::AwaitingDelivery);
    match action {
        Action::Deliver { announcement, clipboard } => {
            assert_eq!(clipboard, command);
            assert_eq!(announcement, format!("Command copied to clipboard: {}", command));
            assert_eq!(&announcement[LABEL.len()..], command);
        }
        other => panic!("expected a delivery, got {:?}", other),
    }

    let (session, action) = session.step(Event::Delivered);
    assert!(matches!(action, Action::Finish));
    assert_eq!(session.stage(), Stage::Finished);
    assert!(session.is_over());
}

#[test]
fn delivery_is_trimmed() {
    let (session, _) = Session::begin(&words(&["list"]));
    let (session, _) = session.step(loaded("k"));
    let (_, action) = session.step(reply("  ls -la  "));
    match action {
        Action::Deliver { announcement, clipboard } => {
            assert_eq!(clipboard, "ls -la");
            assert_eq!(announcement, "Command copied to clipboard: ls -la");
        }
        other => panic!("expected a delivery, got {:?}", other),
    }
}

#[test]
fn missing_credential_file_fails_before_any_request() {
    let (session, _) = Session::begin(&words(&["list", "files"]));
    let (mut session, action) = session.step(Event::CredentialFileMissing);
    match &action {
        Action::Abort { error } => {
            assert_eq!(error.kind, ErrorKind::MissingCredentialFile);
            let message = error.message();
            assert!(message.contains("~/.zaa"));
            assert!(message.contains("OPENAI_API_KEY=<your key>"));
        }
        other => panic!("expected an abort, got {:?}", other),
    }
    assert_eq!(session.stage(), Stage::Failed);
    assert!(session.is_over());
    for event in every_event() {
        let (next, action) = session.step(event);
        assert!(matches!(action, Action::Abort { .. }));
        assert_eq!(next.stage(), Stage::Failed);
        session = next;
    }
}

#[test]
fn missing_api_key_fails_the_run() {
    let (session, _) = Session::begin(&words(&["x"]));
    let (session, action) = session.step(Event::ApiKeyMissing);
    assert_eq!(abort_kind(&action), ErrorKind::MissingApiKey);
    assert_eq!(session.stage(), Stage::Failed);
}

#[test]
fn invalid_api_key_fails_the_run() {
    let (session, _) = Session::begin(&words(&["x"]));
    let (session, action) = session.step(loaded("line\nbreak"));
    assert_eq!(abort_kind(&action), ErrorKind::InvalidApiKey);
    assert_eq!(session.stage(), Stage::Failed);
}

#[test]
fn transport_failure_is_not_retried_and_nothing_is_copied() {
    let (session, _) = Session::begin(&words(&["list", "files"]));
    let (session, action) = session.step(loaded("sk-test"));
    assert!(matches!(action, Action::Send { .. }));
    let (mut session, action) = session.step(Event::TransportFailed {
        detail: "connection refused".to_string(),
    });
    match &action {
        Action::Abort { error } => {
            assert_eq!(error.kind, ErrorKind::Transport);
            assert_eq!(error.detail, "connection refused");
            assert_eq!(
                error.message(),
                "Request to the completion service failed: connection refused"
            );
        }
        other => panic!("expected an abort, got {:?}", other),
    }
    assert_eq!(session.stage(), Stage::Failed);
    for event in every_event() {
        let (next, action) = session.step(event);
        assert!(!matches!(action, Action::Send { .. }));
        assert!(!matches!(action, Action::Deliver { .. }));
        assert!(matches!(action, Action::Abort { .. }));
        session = next;
    }
}

#[test]
fn malformed_reply_fails_the_run() {
    let (session, _) = Session::begin(&words(&["x"]));
    let (session, _) = session.step(loaded("k"));
    let (session, action) = session.step(Event::ReplyMalformed {
        detail: "missing field `choices`".to_string(),
    });
    match &action {
        Action::Abort { error } => {
            assert_eq!(error.kind, ErrorKind::MalformedResponse);
            assert_eq!(error.detail, "missing field `choices`");
        }
        other => panic!("expected an abort, got {:?}", other),
    }
    assert_eq!(session.stage(), Stage::Failed);
}

#[test]
fn reply_without_choices_fails_the_run() {
    let (session, _) = Session::begin(&words(&["x"]));
    let (session, _) = session.step(loaded("k"));
    let (session, action) = session.step(Event::ReplyReceived {
        response: CompletionResponse { choices: vec![] },
    });
    assert_eq!(abort_kind(&action), ErrorKind::NoChoices);
    assert_eq!(session.stage(), Stage::Failed);
}

#[test]
fn clipboard_failure_fails_the_run() {
    let (session, _) = Session::begin(&words(&["x"]));
    let (session, _) = session.step(loaded("k"));
    let (session, _) = session.step(reply("ls"));
    let (session, action) = session.step(Event::ClipboardFailed {
        detail: "no display".to_string(),
    });
    match &action {
        Action::Abort { error } => {
            assert_eq!(error.kind, ErrorKind::Clipboard);
            assert_eq!(error.message(), "Clipboard failed: no display");
        }
        other => panic!("expected an abort, got {:?}", other),
    }
    assert_eq!(session.stage(), Stage::Failed);
}

#[test]
fn events_out_of_order_fail_the_run() {
    let (session, _) = Session::begin(&words(&["x"]));
    let (session, action) = session.step(reply("ls"));
    assert_eq!(abort_kind(&action), ErrorKind::OutOfOrder);
    assert_eq!(session.stage(), Stage::Failed);

    let (session, _) = Session::begin(&words(&["x"]));
    let (session, _) = session.step(loaded("k"));
    let (session, action) = session.step(loaded("k"));
    assert_eq!(abort_kind(&action), ErrorKind::OutOfOrder);
    assert_eq!(session.stage(), Stage::Failed);

    let (session, _) = Session::begin(&words(&["x"]));
    let (session, _) = session.step(loaded("k"));
    let (session, _) = session.step(reply("ls"));
    let (session, action) = session.step(reply("ls"));
    assert_eq!(abort_kind(&action), ErrorKind::OutOfOrder);
    assert_eq!(session.stage(), Stage::Failed);
}

#[test]
fn finished_run_stays_finished() {
    let (session, _) = Session::begin(&words(&["x"]));
    let (session, _) = session.step(loaded("k"));
    let (session, _) = session.step(reply("ls"));
    let (mut session, _) = session.step(Event::Delivered);
    for event in every_event() {
        let (next, action) = session.step(event);
        assert!(matches!(action, Action::Finish));
        assert_eq!(next.stage(), Stage::Finished);
        session = next;
    }
}

#[test]
fn a_run_sends_at_most_once() {
    let orders: Vec<Vec<usize>> = vec![
        vec![0, 0, 0],
        vec![0, 3, 0, 3],
        vec![0, 4, 0],
        vec![0, 3, 6, 0],
        vec![3, 0],
        vec![0, 5, 0, 3, 6],
    ];
    for order in orders {
        let (mut session, _) = Session::begin(&words(&["x"]));
        let mut sent = 0;
        for pick in order {
            let event = every_event().swap_remove(pick);
            let (next, action) = session.step(event);
            if matches!(action, Action::Send { .. }) {
                sent += 1;
            }
            session = next;
        }
        assert!(sent <= 1);
    }
}

#[test]
fn failed_exchange_is_classified() {
    let malformed = Event::exchange_failed(true, true, "bad body".to_string());
    assert!(matches!(malformed, Event::ReplyMalformed { ref detail } if detail == "bad body"));
    let refused = Event::exchange_failed(false, false, "connection refused".to_string());
    assert!(matches!(refused, Event::TransportFailed { ref detail } if detail == "connection refused"));
    let error_status = Event::exchange_failed(false, true, "status 401".to_string());
    assert!(matches!(error_status, Event::TransportFailed { ref detail } if detail == "status 401"));
    let cut_off = Event::exchange_failed(true, false, "connection reset".to_string());
    assert!(matches!(cut_off, Event::TransportFailed { .. }));
}
