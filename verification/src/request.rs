//! The request to the completion service: its body, its headers, its address.

use crate::error::{plain_error, Error, ErrorKind, ErrorView};
use crate::number::{decimal, render_decimal, tenths_text, Tenths};
use crate::prompt::{prompt_text, render_prompt};
use vstd::prelude::*;

verus! {

/// The address every request is posted to.
pub const ENDPOINT: &'static str = "https://api.openai.com/v1/completions";

/// The model every request asks for.
pub const MODEL: &'static str = "text-davinci-003";

pub const CONTENT_TYPE: &'static str = "content-type";

pub const JSON_MEDIA_TYPE: &'static str = "application/json";

pub const AUTHORIZATION: &'static str = "authorization";

/// The authorization scheme, with the space that parts it from the key.
pub const BEARER: &'static str = "Bearer ";

/// The JSON string literal for `s`, quotes included, as `serde_json` writes it.
pub uninterp spec fn json_quoted(s: Seq<char>) -> Seq<char>;

/// Writes `text` as a JSON string literal by rendering
/// `serde_json::Value::String` through its `Display`. Trusted: the outcome
/// depends on `text` alone, and [`json_quoted`] names it.
#[verifier::external_body]
fn json_quote(text: &str) -> (quoted: String)
    ensures
        quoted@ == json_quoted(text@),
{
    serde_json::Value::String(text.to_owned()).to_string()
}

/// Whether `c` may stand in an HTTP header value: a tab, or any character
/// from the space upwards except DEL.
pub open spec fn header_char_ok(c: char) -> bool {
    c == '\t' || (' ' <= c && c != '\x7f')
}

/// Whether every character of `s` may stand in an HTTP header value.
pub open spec fn header_value_ok(s: Seq<char>) -> bool {
    forall|i: int| 0 <= i < s.len() ==> header_char_ok(#[trigger] s[i])
}

/// Asks `reqwest::header::HeaderValue::from_str` whether it accepts `value`.
/// Trusted: it refuses a text exactly when one of its bytes is below 32 and
/// no tab, or is 127; every byte of a character beyond ASCII is above 127.
#[verifier::external_body]
fn header_value_accepted(value: &str) -> (ok: bool)
    ensures
        ok == header_value_ok(value@),
{
    reqwest::header::HeaderValue::from_str(value).is_ok()
}

/// What the completion service is asked: the model, the prompt and the
/// sampling parameters.
#[derive(Debug)]
pub struct CompletionRequest {
    pub model: String,
    pub prompt: String,
    pub temperature: Tenths,
    pub max_tokens: u32,
    pub top_p: u32,
    pub frequency_penalty: Tenths,
    pub presence_penalty: Tenths,
}

/// A [`CompletionRequest`] as a plain value.
pub struct CompletionRequestView {
    pub model: Seq<char>,
    pub prompt: Seq<char>,
    pub temperature: Tenths,
    pub max_tokens: u32,
    pub top_p: u32,
    pub frequency_penalty: Tenths,
    pub presence_penalty: Tenths,
}

impl View for CompletionRequest {
    type V = CompletionRequestView;

    open spec fn view(&self) -> CompletionRequestView {
        CompletionRequestView {
            model: self.model@,
            prompt: self.prompt@,
            temperature: self.temperature,
            max_tokens: self.max_tokens,
            top_p: self.top_p,
            frequency_penalty: self.frequency_penalty,
            presence_penalty: self.presence_penalty,
        }
    }
}

/// The request for `prompt` with the fixed model and sampling parameters:
/// temperature 0.0, at most 100 tokens, top-p 1, frequency penalty 0.2,
/// presence penalty 0.0.
pub open spec fn standard_request(prompt: Seq<char>) -> CompletionRequestView {
    CompletionRequestView {
        model: MODEL@,
        prompt,
        temperature: Tenths { tenths: 0 },
        max_tokens: 100,
        top_p: 1,
        frequency_penalty: Tenths { tenths: 2 },
        presence_penalty: Tenths { tenths: 0 },
    }
}

/// The body of a request: one JSON object with its keys in alphabetical
/// order and no whitespace, given the JSON string literals of the model and
/// of the prompt.
pub open spec fn body_text(
    request: CompletionRequestView,
    quoted_model: Seq<char>,
    quoted_prompt: Seq<char>,
) -> Seq<char> {
    "{\"frequency_penalty\":"@ + tenths_text(request.frequency_penalty) + ",\"max_tokens\":"@
        + decimal(request.max_tokens as nat) + ",\"model\":"@ + quoted_model
        + ",\"presence_penalty\":"@ + tenths_text(request.presence_penalty) + ",\"prompt\":"@
        + quoted_prompt + ",\"temperature\":"@ + tenths_text(request.temperature)
        + ",\"top_p\":"@ + decimal(request.top_p as nat) + "}"@
}

/// Writes the body of `request` around the JSON string literals of its model
/// and its prompt.
pub fn assemble_body(request: &CompletionRequest, quoted_model: &str, quoted_prompt: &str) -> (body:
    String)
    ensures
        body@ == body_text(request@, quoted_model@, quoted_prompt@),
{
    let mut body = String::from_str("{\"frequency_penalty\":");
    body.append(request.frequency_penalty.render().as_str());
    body.append(",\"max_tokens\":");
    body.append(render_decimal(request.max_tokens).as_str());
    body.append(",\"model\":");
    body.append(quoted_model);
    body.append(",\"presence_penalty\":");
    body.append(request.presence_penalty.render().as_str());
    body.append(",\"prompt\":");
    body.append(quoted_prompt);
    body.append(",\"temperature\":");
    body.append(request.temperature.render().as_str());
    body.append(",\"top_p\":");
    body.append(render_decimal(request.top_p).as_str());
    body.append("}");
    body
}

impl CompletionRequest {
    /// The request for `prompt`. Model and sampling parameters are fixed:
    /// they do not depend on the prompt.
    pub fn new(prompt: String) -> (request: CompletionRequest)
        ensures
            request@ == standard_request(prompt@),
    {
        CompletionRequest {
            model: String::from_str(MODEL),
            prompt,
            temperature: Tenths { tenths: 0 },
            max_tokens: 100,
            top_p: 1,
            frequency_penalty: Tenths { tenths: 2 },
            presence_penalty: Tenths { tenths: 0 },
        }
    }

    /// Serializes the request to the JSON text that is sent as the body.
    pub fn to_json(&self) -> (body: String)
        ensures
            body@ == body_text(self@, json_quoted(self.model@), json_quoted(self.prompt@)),
    {
        let quoted_model = json_quote(self.model.as_str());
        let quoted_prompt = json_quote(self.prompt.as_str());
        assemble_body(self, quoted_model.as_str(), quoted_prompt.as_str())
    }
}

/// The body of every standard request is the same text around the two
/// string literals: the sampling parameters in it do not depend on the prompt.
pub proof fn lemma_standard_body(prompt: Seq<char>, quoted_model: Seq<char>, quoted_prompt: Seq<char>)
    ensures
        body_text(standard_request(prompt), quoted_model, quoted_prompt)
            == "{\"frequency_penalty\":0.2,\"max_tokens\":100,\"model\":"@ + quoted_model
            + ",\"presence_penalty\":0.0,\"prompt\":"@ + quoted_prompt
            + ",\"temperature\":0.0,\"top_p\":1}"@,
{
    reveal_strlit("{\"frequency_penalty\":");
    reveal_strlit(",\"max_tokens\":");
    reveal_strlit(",\"model\":");
    reveal_strlit(",\"presence_penalty\":");
    reveal_strlit(",\"prompt\":");
    reveal_strlit(",\"temperature\":");
    reveal_strlit(",\"top_p\":");
    reveal_strlit("}");
    reveal_strlit("{\"frequency_penalty\":0.2,\"max_tokens\":100,\"model\":");
    reveal_strlit(",\"presence_penalty\":0.0,\"prompt\":");
    reveal_strlit(",\"temperature\":0.0,\"top_p\":1}");
    reveal_with_fuel(decimal, 3);
    assert(decimal(100) =~= seq!['1', '0', '0']);
    assert(decimal(1) =~= seq!['1']);
    assert(decimal(0) =~= seq!['0']);
    assert(tenths_text(Tenths { tenths: 0 }) =~= seq!['0', '.', '0']);
    assert(tenths_text(Tenths { tenths: 2 }) =~= seq!['0', '.', '2']);
    assert("{\"frequency_penalty\":"@ + seq!['0', '.', '2'] + ",\"max_tokens\":"@ + seq![
        '1',
        '0',
        '0',
    ] + ",\"model\":"@ =~= "{\"frequency_penalty\":0.2,\"max_tokens\":100,\"model\":"@);
    assert(",\"presence_penalty\":"@ + seq!['0', '.', '0'] + ",\"prompt\":"@
        =~= ",\"presence_penalty\":0.0,\"prompt\":"@);
    assert(",\"temperature\":"@ + seq!['0', '.', '0'] + ",\"top_p\":"@ + seq!['1'] + "}"@
        =~= ",\"temperature\":0.0,\"top_p\":1}"@);
    assert(body_text(standard_request(prompt), quoted_model, quoted_prompt) =~= (
    "{\"frequency_penalty\":"@ + seq!['0', '.', '2'] + ",\"max_tokens\":"@ + seq!['1', '0', '0']
        + ",\"model\":"@) + quoted_model + (",\"presence_penalty\":"@ + seq!['0', '.', '0']
        + ",\"prompt\":"@) + quoted_prompt + (",\"temperature\":"@ + seq!['0', '.', '0']
        + ",\"top_p\":"@ + seq!['1'] + "}"@));
}

/// One header of a request.
#[derive(Debug)]
pub struct Header {
    pub name: String,
    pub value: String,
}

/// A [`Header`] as a plain value.
pub struct HeaderView {
    pub name: Seq<char>,
    pub value: Seq<char>,
}

impl View for Header {
    type V = HeaderView;

    open spec fn view(&self) -> HeaderView {
        HeaderView { name: self.name@, value: self.value@ }
    }
}

/// All that is handed to the transport: where to post, with which headers,
/// and what.
#[derive(Debug)]
pub struct PostRequest {
    pub url: String,
    pub headers: Vec<Header>,
    pub body: String,
}

/// A [`PostRequest`] as a plain value.
pub struct PostRequestView {
    pub url: Seq<char>,
    pub headers: Seq<HeaderView>,
    pub body: Seq<char>,
}

impl View for PostRequest {
    type V = PostRequestView;

    open spec fn view(&self) -> PostRequestView {
        PostRequestView {
            url: self.url@,
            headers: self.headers@.map_values(|h: Header| h@),
            body: self.body@,
        }
    }
}

/// The value of the authorization header for `api_key`: the bearer scheme
/// and the key as it stands.
pub open spec fn authorization_text(api_key: Seq<char>) -> Seq<char> {
    BEARER@ + api_key
}

/// The value of the authorization header for `api_key`, or the error
/// `InvalidApiKey` where the key cannot stand in a header.
pub open spec fn authorization_for(api_key: Seq<char>) -> Result<Seq<char>, ErrorView> {
    if header_value_ok(api_key) {
        Ok(authorization_text(api_key))
    } else {
        Err(plain_error(ErrorKind::InvalidApiKey))
    }
}

/// The request that asks for a command for `english` on behalf of the
/// holder of `api_key`.
pub open spec fn request_text(english: Seq<char>, api_key: Seq<char>) -> PostRequestView {
    PostRequestView {
        url: ENDPOINT@,
        headers: seq![
            HeaderView { name: CONTENT_TYPE@, value: JSON_MEDIA_TYPE@ },
            HeaderView { name: AUTHORIZATION@, value: authorization_text(api_key) },
        ],
        body: body_text(
            standard_request(prompt_text(english)),
            json_quoted(MODEL@),
            json_quoted(prompt_text(english)),
        ),
    }
}

/// The request for `english` and `api_key`, or the error `InvalidApiKey`
/// where the key cannot stand in a header. No other input is refused.
pub open spec fn request_for(english: Seq<char>, api_key: Seq<char>) -> Result<
    PostRequestView,
    ErrorView,
> {
    if header_value_ok(api_key) {
        Ok(request_text(english, api_key))
    } else {
        Err(plain_error(ErrorKind::InvalidApiKey))
    }
}

/// Every request carries the same sampling parameters in its body, whatever
/// the description and the key: temperature 0.0, at most 100 tokens, top-p 1,
/// frequency penalty 0.2 and presence penalty 0.0.
pub proof fn lemma_request_body(english: Seq<char>, api_key: Seq<char>)
    ensures
        request_text(english, api_key).body
            == "{\"frequency_penalty\":0.2,\"max_tokens\":100,\"model\":"@ + json_quoted(MODEL@)
            + ",\"presence_penalty\":0.0,\"prompt\":"@ + json_quoted(prompt_text(english))
            + ",\"temperature\":0.0,\"top_p\":1}"@,
{
    lemma_standard_body(
        prompt_text(english),
        json_quoted(MODEL@),
        json_quoted(prompt_text(english)),
    );
}

/// The scheme in front of the key never spoils a header value: the
/// authorization header is acceptable exactly when the key is.
pub proof fn lemma_authorization_ok(api_key: Seq<char>)
    ensures
        header_value_ok(authorization_text(api_key)) == header_value_ok(api_key),
{
    reveal_strlit("Bearer ");
    let v = authorization_text(api_key);
    if header_value_ok(api_key) {
        assert forall|i: int| 0 <= i < v.len() implies header_char_ok(#[trigger] v[i]) by {
            if i >= 7 {
                assert(v[i] == api_key[i - 7]);
            }
        }
    } else {
        let j = choose|j: int| 0 <= j < api_key.len() && !header_char_ok(#[trigger] api_key[j]);
        assert(v[j + 7] == api_key[j]);
    }
}

/// Renders the value of the authorization header, or fails with
/// `InvalidApiKey` where the key holds a character that no header value may
/// hold.
pub fn authorization_value(api_key: &str) -> (r: Result<String, Error>)
    ensures
        match authorization_for(api_key@) {
            Ok(value) => r matches Ok(v) && v@ == value,
            Err(error) => r matches Err(e) && e@ == error,
        },
{
    let mut value = String::from_str(BEARER);
    value.append(api_key);
    proof {
        lemma_authorization_ok(api_key@);
    }
    if header_value_accepted(value.as_str()) {
        Ok(value)
    } else {
        Err(Error::new(ErrorKind::InvalidApiKey))
    }
}

/// Builds the one request of a run from the user's description and the API
/// key. The key is sent as it is given; it is refused only where it cannot
/// stand in a header.
pub fn build_request(english: &str, api_key: &str) -> (r: Result<PostRequest, Error>)
    ensures
        match request_for(english@, api_key@) {
            Ok(request) => r matches Ok(q) && q@ == request,
            Err(error) => r matches Err(e) && e@ == error,
        },
{
    let authorization = match authorization_value(api_key) {
        Ok(value) => value,
        Err(e) => {
            return Err(e);
        },
    };
    let mut headers: Vec<Header> = Vec::new();
    headers.push(
        Header { name: String::from_str(CONTENT_TYPE), value: String::from_str(JSON_MEDIA_TYPE) },
    );
    headers.push(Header { name: String::from_str(AUTHORIZATION), value: authorization });
    let body = CompletionRequest::new(render_prompt(english)).to_json();
    let request = PostRequest { url: String::from_str(ENDPOINT), headers, body };
    assert(request@.headers =~= request_text(english@, api_key@).headers);
    Ok(request)
}

} // verus!
