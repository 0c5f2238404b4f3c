//! The course of one run: which outside step is due next, and what follows
//! from the way it ended.
//!
//! The caller performs the outside steps (loading the credential, the network
//! exchange, printing and the clipboard) and reports how each one ended as an
//! [`Event`]; the session answers with the next [`Action`].

use crate::error::{message_text, plain_error, Error, ErrorKind, ErrorView, MISSING_CREDENTIAL_FILE};
use crate::request::{
    build_request, header_value_ok, request_for, request_text, PostRequest, PostRequestView,
};
use crate::response::{command_of, extract_command, CompletionResponse, CompletionResponseView};
use crate::text::{join_words, joined, trimmed};
use vstd::prelude::*;

verus! {

/// What the successful run prints in front of the command.
pub const LABEL: &'static str = "Command copied to clipboard: ";

/// Where a run stands.
#[derive(Clone, Copy, Debug, PartialEq, Eq, Structural)]
pub enum Stage {
    /// The credential has been asked for.
    AwaitingCredential,
    /// The request has been handed out.
    AwaitingReply,
    /// The command has been handed out to be printed and copied.
    AwaitingDelivery,
    /// The run has ended well.
    Finished,
    /// The run has ended with an error.
    Failed,
}

/// How an outside step ended.
#[derive(Debug)]
pub enum Event {
    /// The credential file was loaded and defines this API key.
    CredentialLoaded { api_key: String },
    /// The credential file could not be loaded.
    CredentialFileMissing,
    /// The credential file was loaded and does not define the API key.
    ApiKeyMissing,
    /// The service answered and the body has the expected shape.
    ReplyReceived { response: CompletionResponse },
    /// The exchange failed; `detail` is the transport's diagnostic.
    TransportFailed { detail: String },
    /// The service answered with a body of another shape.
    ReplyMalformed { detail: String },
    /// The command was printed and copied.
    Delivered,
    /// The clipboard could not be opened or written.
    ClipboardFailed { detail: String },
}

/// An [`Event`] as a plain value.
pub enum EventView {
    CredentialLoaded { api_key: Seq<char> },
    CredentialFileMissing,
    ApiKeyMissing,
    ReplyReceived { response: CompletionResponseView },
    TransportFailed { detail: Seq<char> },
    ReplyMalformed { detail: Seq<char> },
    Delivered,
    ClipboardFailed { detail: Seq<char> },
}

impl View for Event {
    type V = EventView;

    open spec fn view(&self) -> EventView {
        match *self {
            Event::CredentialLoaded { api_key } => EventView::CredentialLoaded {
                api_key: api_key@,
            },
            Event::CredentialFileMissing => EventView::CredentialFileMissing,
            Event::ApiKeyMissing => EventView::ApiKeyMissing,
            Event::ReplyReceived { response } => EventView::ReplyReceived { response: response@ },
            Event::TransportFailed { detail } => EventView::TransportFailed { detail: detail@ },
            Event::ReplyMalformed { detail } => EventView::ReplyMalformed { detail: detail@ },
            Event::Delivered => EventView::Delivered,
            Event::ClipboardFailed { detail } => EventView::ClipboardFailed { detail: detail@ },
        }
    }
}

/// The event that stands for a failed exchange. A body that cannot be decoded
/// is a malformed reply where the service answered with a success status;
/// every other failure, one to decode the body of an answer without a
/// success status among them, is a failure of the transport.
pub open spec fn failure_event(success_status: bool, undecodable: bool, detail: Seq<char>)
    -> EventView {
    if success_status && undecodable {
        EventView::ReplyMalformed { detail }
    } else {
        EventView::TransportFailed { detail }
    }
}

impl Event {
    /// Classifies a failed exchange: `success_status` says whether an answer
    /// with a success status arrived, `undecodable` whether the failure was to
    /// decode its body, and `detail` is the transport's diagnostic.
    pub fn exchange_failed(success_status: bool, undecodable: bool, detail: String) -> (event:
        Event)
        ensures
            event@ == failure_event(success_status, undecodable, detail@),
    {
        if success_status && undecodable {
            Event::ReplyMalformed { detail }
        } else {
            Event::TransportFailed { detail }
        }
    }
}

/// The outside step that is due next.
#[derive(Debug)]
pub enum Action {
    /// Load the credential file and look up the API key.
    LoadCredential,
    /// Post this request, once, and parse the answer.
    Send { request: PostRequest },
    /// Print `announcement` on a line of its own, then put `clipboard` on the
    /// clipboard.
    Deliver { announcement: String, clipboard: String },
    /// End the run: all is done.
    Finish,
    /// Report the error and end the run.
    Abort { error: Error },
}

/// An [`Action`] as a plain value.
pub enum ActionView {
    LoadCredential,
    Send { request: PostRequestView },
    Deliver { announcement: Seq<char>, clipboard: Seq<char> },
    Finish,
    Abort { error: ErrorView },
}

impl View for Action {
    type V = ActionView;

    open spec fn view(&self) -> ActionView {
        match *self {
            Action::LoadCredential => ActionView::LoadCredential,
            Action::Send { request } => ActionView::Send { request: request@ },
            Action::Deliver { announcement, clipboard } => ActionView::Deliver {
                announcement: announcement@,
                clipboard: clipboard@,
            },
            Action::Finish => ActionView::Finish,
            Action::Abort { error } => ActionView::Abort { error: error@ },
        }
    }
}

/// One run: its stage and the user's description.
#[derive(Debug)]
pub struct Session {
    stage: Stage,
    english: String,
}

/// A [`Session`] as a plain value.
pub struct SessionView {
    pub stage: Stage,
    pub english: Seq<char>,
}

impl View for Session {
    type V = SessionView;

    closed spec fn view(&self) -> SessionView {
        SessionView { stage: self.stage, english: self.english@ }
    }
}

/// The session a run starts with: the words of the description joined with
/// single spaces, and the credential asked for.
pub open spec fn initial(words: Seq<Seq<char>>) -> SessionView {
    SessionView { stage: Stage::AwaitingCredential, english: joined(words) }
}

/// `s` moved to `stage`.
pub open spec fn at(s: SessionView, stage: Stage) -> SessionView {
    SessionView { stage, english: s.english }
}

/// The run fails with `error`.
pub open spec fn fail(s: SessionView, error: ErrorView) -> (SessionView, ActionView) {
    (at(s, Stage::Failed), ActionView::Abort { error })
}

/// What is printed for `command`.
pub open spec fn announcement_text(command: Seq<char>) -> Seq<char> {
    LABEL@ + command
}

/// The session after `event`, and the action that is due then.
///
/// Every failure ends the run; nothing is tried twice. A finished or failed
/// run stays as it is, and an event that the stage does not wait for fails
/// the run with `OutOfOrder`.
pub open spec fn transition(s: SessionView, event: EventView) -> (SessionView, ActionView) {
    match s.stage {
        Stage::AwaitingCredential => match event {
            EventView::CredentialLoaded { api_key } => match request_for(s.english, api_key) {
                Ok(request) => (at(s, Stage::AwaitingReply), ActionView::Send { request }),
                Err(error) => fail(s, error),
            },
            EventView::CredentialFileMissing => fail(
                s,
                plain_error(ErrorKind::MissingCredentialFile),
            ),
            EventView::ApiKeyMissing => fail(s, plain_error(ErrorKind::MissingApiKey)),
            _ => fail(s, plain_error(ErrorKind::OutOfOrder)),
        },
        Stage::AwaitingReply => match event {
            EventView::ReplyReceived { response } => match command_of(response) {
                Ok(command) => (
                    at(s, Stage::AwaitingDelivery),
                    ActionView::Deliver {
                        announcement: announcement_text(command),
                        clipboard: command,
                    },
                ),
                Err(error) => fail(s, error),
            },
            EventView::TransportFailed { detail } => fail(
                s,
                ErrorView { kind: ErrorKind::Transport, detail },
            ),
            EventView::ReplyMalformed { detail } => fail(
                s,
                ErrorView { kind: ErrorKind::MalformedResponse, detail },
            ),
            _ => fail(s, plain_error(ErrorKind::OutOfOrder)),
        },
        Stage::AwaitingDelivery => match event {
            EventView::Delivered => (at(s, Stage::Finished), ActionView::Finish),
            EventView::ClipboardFailed { detail } => fail(
                s,
                ErrorView { kind: ErrorKind::Clipboard, detail },
            ),
            _ => fail(s, plain_error(ErrorKind::OutOfOrder)),
        },
        Stage::Finished => (s, ActionView::Finish),
        Stage::Failed => fail(s, plain_error(ErrorKind::OutOfOrder)),
    }
}

impl Session {
    /// Starts a run for the description given word by word. The first action
    /// is always to load the credential.
    pub fn begin(words: &Vec<String>) -> (r: (Session, Action))
        ensures
            r.0@ == initial(words.deep_view()),
            r.1@ == ActionView::LoadCredential,
    {
        let session = Session { stage: Stage::AwaitingCredential, english: join_words(words) };
        (session, Action::LoadCredential)
    }

    /// Where the run stands.
    pub fn stage(&self) -> (stage: Stage)
        ensures
            stage == self@.stage,
    {
        self.stage
    }

    /// The user's description.
    pub fn english(&self) -> (english: &str)
        ensures
            english@ == self@.english,
    {
        self.english.as_str()
    }

    /// Whether the run has ended.
    pub fn is_over(&self) -> (over: bool)
        ensures
            over == (self@.stage == Stage::Finished || self@.stage == Stage::Failed),
    {
        match self.stage {
            Stage::Finished | Stage::Failed => true,
            _ => false,
        }
    }

    fn failed(self, error: Error) -> (r: (Session, Action))
        ensures
            (r.0@, r.1@) == fail(self@, error@),
    {
        (Session { stage: Stage::Failed, english: self.english }, Action::Abort { error })
    }

    /// Takes the outcome of the step that was due and answers with the next
    /// one.
    pub fn step(self, event: Event) -> (r: (Session, Action))
        ensures
            (r.0@, r.1@) == transition(self@, event@),
    {
        match self.stage {
            Stage::AwaitingCredential => match event {
                Event::CredentialLoaded { api_key } => {
                    match build_request(self.english.as_str(), api_key.as_str()) {
                        Ok(request) => (
                            Session { stage: Stage::AwaitingReply, english: self.english },
                            Action::Send { request },
                        ),
                        Err(error) => self.failed(error),
                    }
                },
                Event::CredentialFileMissing => self.failed(
                    Error::new(ErrorKind::MissingCredentialFile),
                ),
                Event::ApiKeyMissing => self.failed(Error::new(ErrorKind::MissingApiKey)),
                _ => self.failed(Error::new(ErrorKind::OutOfOrder)),
            },
            Stage::AwaitingReply => match event {
                Event::ReplyReceived { response } => match extract_command(&response) {
                    Ok(command) => {
                        let mut announcement = String::from_str(LABEL);
                        announcement.append(command.as_str());
                        (
                            Session { stage: Stage::AwaitingDelivery, english: self.english },
                            Action::Deliver { announcement, clipboard: command },
                        )
                    },
                    Err(error) => self.failed(error),
                },
                Event::TransportFailed { detail } => self.failed(
                    Error::with_detail(ErrorKind::Transport, detail),
                ),
                Event::ReplyMalformed { detail } => self.failed(
                    Error::with_detail(ErrorKind::MalformedResponse, detail),
                ),
                _ => self.failed(Error::new(ErrorKind::OutOfOrder)),
            },
            Stage::AwaitingDelivery => match event {
                Event::Delivered => (
                    Session { stage: Stage::Finished, english: self.english },
                    Action::Finish,
                ),
                Event::ClipboardFailed { detail } => self.failed(
                    Error::with_detail(ErrorKind::Clipboard, detail),
                ),
                _ => self.failed(Error::new(ErrorKind::OutOfOrder)),
            },
            Stage::Finished => (self, Action::Finish),
            Stage::Failed => self.failed(Error::new(ErrorKind::OutOfOrder)),
        }
    }
}

/// The actions that answer `events`, one after the other, starting from `s`.
pub open spec fn actions_of(s: SessionView, events: Seq<EventView>) -> Seq<ActionView>
    decreases events.len(),
{
    if events.len() == 0 {
        Seq::empty()
    } else {
        seq![transition(s, events[0]).1] + actions_of(
            transition(s, events[0]).0,
            events.drop_first(),
        )
    }
}

/// Every event is answered by exactly one action.
pub proof fn lemma_one_action_per_event(s: SessionView, events: Seq<EventView>)
    ensures
        actions_of(s, events).len() == events.len(),
    decreases events.len(),
{
    if events.len() > 0 {
        lemma_one_action_per_event(transition(s, events[0]).0, events.drop_first());
    }
}

/// A request is handed out only in answer to a loaded credential whose key
/// can stand in a header, and it is the request for the session's
/// description and that key.
pub proof fn lemma_request_needs_key(s: SessionView, event: EventView)
    requires
        transition(s, event).1 is Send,
    ensures
        s.stage == Stage::AwaitingCredential,
        event is CredentialLoaded,
        header_value_ok(event->api_key),
        transition(s, event).1 == (ActionView::Send {
            request: request_text(s.english, event->api_key),
        }),
        transition(s, event).0.stage == Stage::AwaitingReply,
{
}

/// Once the credential step is over, no request is handed out again,
/// whatever is reported: nothing is retried.
pub proof fn lemma_no_request_later(s: SessionView, events: Seq<EventView>)
    requires
        s.stage != Stage::AwaitingCredential,
    ensures
        forall|i: int| 0 <= i < events.len() ==> !(#[trigger] actions_of(s, events)[i] is Send),
    decreases events.len(),
{
    lemma_one_action_per_event(s, events);
    if events.len() > 0 {
        let next = transition(s, events[0]).0;
        lemma_no_request_later(next, events.drop_first());
        lemma_one_action_per_event(next, events.drop_first());
        assert forall|i: int| 0 <= i < events.len() implies !(#[trigger] actions_of(s, events)[i]
            is Send) by {
            if i > 0 {
                assert(actions_of(s, events)[i] == actions_of(next, events.drop_first())[i - 1]);
            }
        }
    }
}

/// A run makes at most one request: only the answer to the first event can
/// be one.
pub proof fn lemma_at_most_one_request(words: Seq<Seq<char>>, events: Seq<EventView>)
    ensures
        forall|i: int|
            1 <= i < events.len() ==> !(#[trigger] actions_of(initial(words), events)[i] is Send),
{
    let s = initial(words);
    lemma_one_action_per_event(s, events);
    if events.len() > 0 {
        let next = transition(s, events[0]).0;
        lemma_no_request_later(next, events.drop_first());
        lemma_one_action_per_event(next, events.drop_first());
        assert forall|i: int| 1 <= i < events.len() implies !(#[trigger] actions_of(s, events)[i]
            is Send) by {
            assert(actions_of(s, events)[i] == actions_of(next, events.drop_first())[i - 1]);
        }
    }
}

/// A failed run stays failed: every later event is answered by `Abort`, so
/// nothing is sent, printed or copied after a failure.
pub proof fn lemma_failure_is_final(s: SessionView, events: Seq<EventView>)
    requires
        s.stage == Stage::Failed,
    ensures
        forall|i: int| 0 <= i < events.len() ==> #[trigger] actions_of(s, events)[i] is Abort,
    decreases events.len(),
{
    lemma_one_action_per_event(s, events);
    if events.len() > 0 {
        let next = transition(s, events[0]).0;
        lemma_failure_is_final(next, events.drop_first());
        lemma_one_action_per_event(next, events.drop_first());
        assert forall|i: int| 0 <= i < events.len() implies #[trigger] actions_of(s, events)[i]
            is Abort by {
            if i > 0 {
                assert(actions_of(s, events)[i] == actions_of(next, events.drop_first())[i - 1]);
            }
        }
    }
}

/// Where the credential file is missing, the run fails at once with the
/// message that names the file and the line it must hold, and no request is
/// ever handed out.
pub proof fn lemma_missing_credential_file(words: Seq<Seq<char>>, later: Seq<EventView>)
    ensures
        ({
            let actions = actions_of(initial(words), seq![EventView::CredentialFileMissing] + later);
            &&& actions.len() == 1 + later.len()
            &&& actions[0] == ActionView::Abort {
                error: plain_error(ErrorKind::MissingCredentialFile),
            }
            &&& message_text(plain_error(ErrorKind::MissingCredentialFile))
                == MISSING_CREDENTIAL_FILE@
            &&& forall|i: int| 0 <= i < actions.len() ==> #[trigger] actions[i] is Abort
        }),
{
    let s = initial(words);
    let events = seq![EventView::CredentialFileMissing] + later;
    let next = transition(s, events[0]).0;
    assert(events.drop_first() =~= later);
    lemma_one_action_per_event(s, events);
    lemma_one_action_per_event(next, later);
    lemma_failure_is_final(next, later);
    let actions = actions_of(s, events);
    assert forall|i: int| 0 <= i < actions.len() implies #[trigger] actions[i] is Abort by {
        if i > 0 {
            assert(actions[i] == actions_of(next, later)[i - 1]);
        }
    }
}

/// Where the exchange fails, the run fails at once with the transport's own
/// diagnostic: the request is not sent again and nothing is printed or
/// copied, whatever is reported afterwards.
pub proof fn lemma_transport_failure(
    words: Seq<Seq<char>>,
    api_key: Seq<char>,
    detail: Seq<char>,
    later: Seq<EventView>,
)
    requires
        header_value_ok(api_key),
    ensures
        ({
            let actions = actions_of(
                initial(words),
                seq![EventView::CredentialLoaded { api_key }, EventView::TransportFailed { detail }]
                    + later,
            );
            &&& actions.len() == 2 + later.len()
            &&& actions[0] == ActionView::Send { request: request_text(joined(words), api_key) }
            &&& actions[1] == ActionView::Abort {
                error: ErrorView { kind: ErrorKind::Transport, detail },
            }
            &&& forall|i: int| 1 <= i < actions.len() ==> #[trigger] actions[i] is Abort
        }),
{
    let s0 = initial(words);
    let events = seq![EventView::CredentialLoaded { api_key }, EventView::TransportFailed { detail }]
        + later;
    let s1 = transition(s0, events[0]).0;
    let rest = events.drop_first();
    let s2 = transition(s1, rest[0]).0;
    assert(rest.drop_first() =~= later);
    lemma_one_action_per_event(s0, events);
    lemma_one_action_per_event(s1, rest);
    lemma_one_action_per_event(s2, later);
    lemma_failure_is_final(s2, later);
    let actions = actions_of(s0, events);
    assert(actions[1] == actions_of(s1, rest)[0]);
    assert forall|i: int| 1 <= i < actions.len() implies #[trigger] actions[i] is Abort by {
        assert(actions[i] == actions_of(s1, rest)[i - 1]);
        if i > 1 {
            assert(actions_of(s1, rest)[i - 1] == actions_of(s2, later)[i - 2]);
        }
    }
}

/// A response without choices fails the run with `NoChoices`.
pub proof fn lemma_no_choices_fails(s: SessionView, response: CompletionResponseView)
    requires
        s.stage == Stage::AwaitingReply,
        response.choices.len() == 0,
    ensures
        transition(s, EventView::ReplyReceived { response }) == fail(
            s,
            plain_error(ErrorKind::NoChoices),
        ),
{
}

/// What is copied is the text of the first choice without the whitespace
/// around it, and what is printed is the label followed by that same text.
pub proof fn lemma_delivery(s: SessionView, response: CompletionResponseView)
    requires
        s.stage == Stage::AwaitingReply,
        response.choices.len() > 0,
    ensures
        transition(s, EventView::ReplyReceived { response }).1 == (ActionView::Deliver {
            announcement: LABEL@ + trimmed(response.choices[0].text),
            clipboard: trimmed(response.choices[0].text),
        }),
        transition(s, EventView::ReplyReceived { response }).0.stage == Stage::AwaitingDelivery,
{
}

/// Nothing is printed or copied unless the service has answered with at
/// least one choice: a delivery is only ever the answer to such a reply, and
/// it carries the trimmed text of the first choice.
pub proof fn lemma_delivery_needs_reply(s: SessionView, event: EventView)
    requires
        transition(s, event).1 is Deliver,
    ensures
        s.stage == Stage::AwaitingReply,
        event is ReplyReceived,
        event->response.choices.len() > 0,
        transition(s, event).1->clipboard == trimmed(event->response.choices[0].text),
        transition(s, event).1->announcement == LABEL@ + transition(s, event).1->clipboard,
{
}

/// The run in which every step succeeds: one request, one delivery, the end.
pub proof fn lemma_successful_run(
    words: Seq<Seq<char>>,
    api_key: Seq<char>,
    response: CompletionResponseView,
)
    requires
        header_value_ok(api_key),
        response.choices.len() > 0,
    ensures
        actions_of(
            initial(words),
            seq![
                EventView::CredentialLoaded { api_key },
                EventView::ReplyReceived { response },
                EventView::Delivered,
            ],
        ) == seq![
            ActionView::Send { request: request_text(joined(words), api_key) },
            ActionView::Deliver {
                announcement: LABEL@ + trimmed(response.choices[0].text),
                clipboard: trimmed(response.choices[0].text),
            },
            ActionView::Finish,
        ],
{
    let events = seq![
        EventView::CredentialLoaded { api_key },
        EventView::ReplyReceived { response },
        EventView::Delivered,
    ];
    let s0 = initial(words);
    let s1 = transition(s0, events[0]).0;
    let e1 = events.drop_first();
    let s2 = transition(s1, e1[0]).0;
    let e2 = e1.drop_first();
    let s3 = transition(s2, e2[0]).0;
    let e3 = e2.drop_first();
    assert(e3.len() == 0);
    assert(actions_of(s3, e3) =~= Seq::empty());
    assert(actions_of(s2, e2) =~= seq![ActionView::Finish]);
    assert(actions_of(s1, e1) =~= seq![transition(s1, e1[0]).1, ActionView::Finish]);
    assert(actions_of(s0, events) =~= seq![
        transition(s0, events[0]).1,
        transition(s1, e1[0]).1,
        ActionView::Finish,
    ]);
}

} // verus!
