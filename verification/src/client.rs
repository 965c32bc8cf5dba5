//! The completion client without its transport: what is sent for a query,
//! and what a reply means.

use crate::config::{Config, ConfigView};
use crate::json::{
    element, from_slice, fault_message, get_element, get_member, get_text, json_view, member,
    parse_outcome, text, Json,
};
use crate::text::{trim, trimmed};
use vstd::prelude::*;
use vstd::string::*;

verus! {

/// Sampling temperature of a legacy request, in tenths.
pub const TEMPERATURE_TENTHS: u32 = 7;

/// Number of completions that a legacy request asks for.
pub const COMPLETIONS_PER_REQUEST: u32 = 1;

/// The two shapes of the remote interface. A deployment uses one of them.
#[derive(Debug, Clone, Copy, PartialEq, Eq, Structural)]
pub enum EndpointStyle {
    /// One prompt field, posted to an address that names the model.
    LegacyCompletion,
    /// A list of messages with roles, posted to one fixed address.
    ChatCompletion,
}

/// One message of a chat request.
#[derive(Debug, Clone)]
pub struct Message {
    pub role: String,
    pub content: String,
}

/// What a [`Message`] stands for.
pub struct MessageView {
    pub role: Seq<char>,
    pub content: Seq<char>,
}

impl View for Message {
    type V = MessageView;

    open spec fn view(&self) -> MessageView {
        MessageView { role: self.role@, content: self.content@ }
    }
}

/// The fields of a request body.
#[derive(Debug, Clone)]
pub enum RequestBody {
    Legacy { prompt: String, max_tokens: u32, temperature_tenths: u32, n: u32 },
    Chat { model: String, max_tokens: u32, messages: Vec<Message> },
}

/// What a [`RequestBody`] stands for.
pub enum BodyView {
    Legacy { prompt: Seq<char>, max_tokens: u32, temperature_tenths: u32, n: u32 },
    Chat { model: Seq<char>, max_tokens: u32, messages: Seq<MessageView> },
}

impl View for RequestBody {
    type V = BodyView;

    open spec fn view(&self) -> BodyView {
        match *self {
            RequestBody::Legacy { prompt, max_tokens, temperature_tenths, n } => BodyView::Legacy {
                prompt: prompt@,
                max_tokens,
                temperature_tenths,
                n,
            },
            RequestBody::Chat { model, max_tokens, messages } => BodyView::Chat {
                model: model@,
                max_tokens,
                messages: Seq::new(messages@.len(), |i: int| messages@[i]@),
            },
        }
    }
}

/// One request: where it is posted, the value of its `Authorization`
/// header, and the fields of its body.
#[derive(Debug, Clone)]
pub struct Request {
    pub url: String,
    pub authorization: String,
    pub body: RequestBody,
}

/// What a [`Request`] stands for.
pub struct RequestView {
    pub url: Seq<char>,
    pub authorization: Seq<char>,
    pub body: BodyView,
}

impl View for Request {
    type V = RequestView;

    open spec fn view(&self) -> RequestView {
        RequestView { url: self.url@, authorization: self.authorization@, body: self.body@ }
    }
}

/// The address of the legacy interface for `model`.
pub open spec fn api_url(model: Seq<char>) -> Seq<char> {
    "https://api.openai.com/v1/engines/"@ + model + "/completions"@
}

/// The address of the chat interface.
pub open spec fn chat_url() -> Seq<char> {
    "https://api.openai.com/v1/chat/completions"@
}

/// The header value that authorises a request with `api_key`.
pub open spec fn bearer(api_key: Seq<char>) -> Seq<char> {
    "Bearer "@ + api_key
}

/// The prompt of a legacy request: the context, a line feed, the query.
pub open spec fn legacy_prompt(context: Seq<char>, query: Seq<char>) -> Seq<char> {
    context + seq!['\n'] + query
}

/// The messages of a chat request: the context from the system, then the
/// query from the user.
pub open spec fn chat_messages(context: Seq<char>, query: Seq<char>) -> Seq<MessageView> {
    seq![
        MessageView { role: "system"@, content: context },
        MessageView { role: "user"@, content: query },
    ]
}

/// The request that asks `query` under `config`.
pub open spec fn request_for(
    style: EndpointStyle,
    config: ConfigView,
    query: Seq<char>,
    api_key: Seq<char>,
) -> RequestView {
    match style {
        EndpointStyle::LegacyCompletion => RequestView {
            url: api_url(config.model),
            authorization: bearer(api_key),
            body: BodyView::Legacy {
                prompt: legacy_prompt(config.context, query),
                max_tokens: config.max_tokens,
                temperature_tenths: TEMPERATURE_TENTHS,
                n: COMPLETIONS_PER_REQUEST,
            },
        },
        EndpointStyle::ChatCompletion => RequestView {
            url: chat_url(),
            authorization: bearer(api_key),
            body: BodyView::Chat {
                model: config.model,
                max_tokens: config.max_tokens,
                messages: chat_messages(config.context, query),
            },
        },
    }
}

/// The address to which a legacy request for `model` is posted.
pub fn build_api_url(model: &str) -> (url: String)
    ensures
        url@ == api_url(model@),
{
    let mut url = String::from_str("https://api.openai.com/v1/engines/");
    url.append(model);
    url.append("/completions");
    url
}

/// The value of the `Authorization` header for `api_key`.
pub fn build_authorization(api_key: &str) -> (value: String)
    ensures
        value@ == bearer(api_key@),
{
    let mut value = String::from_str("Bearer ");
    value.append(api_key);
    value
}

/// The request that asks `query` under `config`, in the given style.
pub fn build_request(style: EndpointStyle, config: &Config, query: &str, api_key: &str) -> (request:
    Request)
    ensures
        request@ == request_for(style, config@, query@, api_key@),
{
    match style {
        EndpointStyle::LegacyCompletion => {
            let mut prompt = String::from_str(config.context.as_str());
            proof {
                reveal_strlit("\n");
            }
            prompt.append("\n");
            assert(prompt@ =~= config.context@ + seq!['\n']);
            prompt.append(query);
            Request {
                url: build_api_url(config.model.as_str()),
                authorization: build_authorization(api_key),
                body: RequestBody::Legacy {
                    prompt,
                    max_tokens: config.max_tokens,
                    temperature_tenths: TEMPERATURE_TENTHS,
                    n: COMPLETIONS_PER_REQUEST,
                },
            }
        },
        EndpointStyle::ChatCompletion => {
            let mut messages: Vec<Message> = Vec::new();
            messages.push(
                Message {
                    role: String::from_str("system"),
                    content: String::from_str(config.context.as_str()),
                },
            );
            messages.push(
                Message { role: String::from_str("user"), content: String::from_str(query) },
            );
            let body = RequestBody::Chat {
                model: String::from_str(config.model.as_str()),
                max_tokens: config.max_tokens,
                messages,
            };
            assert(body@->Chat_messages =~= chat_messages(config.context@, query@));
            Request {
                url: String::from_str("https://api.openai.com/v1/chat/completions"),
                authorization: build_authorization(api_key),
                body,
            }
        },
    }
}

/// Why a query got no answer.
#[derive(Debug, Clone)]
pub enum ApiError {
    /// The request did not reach the service or no reply came back; the
    /// text says why.
    Transport(String),
    /// The service replied with a status outside 200 to 299.
    Status(u16),
    /// The reply was no JSON document; the text is the parser's message.
    Decode(String),
}

/// Whether a status reports success.
pub open spec fn is_success(status: u16) -> bool {
    200 <= status <= 299
}

/// The text of the first choice in a reply, where the reply has one: at
/// `choices[0].text` in the legacy style and at `choices[0].message.content`
/// in the chat style.
pub open spec fn choice_text(document: Json, style: EndpointStyle) -> Option<Seq<char>> {
    let choice = element(member(document, "choices"@), 0);
    match style {
        EndpointStyle::LegacyCompletion => text(member(choice, "text"@)),
        EndpointStyle::ChatCompletion => text(member(member(choice, "message"@), "content"@)),
    }
}

/// The answer that a found text gives: the text without the white space
/// around it, and the empty answer where none was found.
pub open spec fn answer_of(found: Option<Seq<char>>) -> Seq<char> {
    match found {
        Some(t) => trimmed(t),
        None => Seq::empty(),
    }
}

/// The answer that a reply holds.
pub open spec fn answer_in(document: Json, style: EndpointStyle) -> Seq<char> {
    answer_of(choice_text(document, style))
}

/// The answer for the text found in a reply, if any was found.
pub fn answer_from(found: Option<&str>) -> (answer: String)
    ensures
        answer@ == answer_of(
            match found {
                Some(t) => Some(t@),
                None => None,
            },
        ),
{
    match found {
        Some(t) => String::from_str(trim(t)),
        None => String::new(),
    }
}

/// The answer that `document` holds. A document without a text at the
/// place where the style puts it gives the empty answer.
pub fn extract_answer(document: &serde_json::Value, style: EndpointStyle) -> (answer: String)
    ensures
        answer@ == answer_in(json_view(*document), style),
{
    let choice = get_element(get_member(document, "choices"), 0);
    let found = match style {
        EndpointStyle::LegacyCompletion => get_text(get_member(choice, "text")),
        EndpointStyle::ChatCompletion => get_text(
            get_member(get_member(choice, "message"), "content"),
        ),
    };
    answer_from(found)
}

/// Reads the body of a reply as a JSON document.
pub fn parse_document(body: &[u8]) -> (outcome: Result<serde_json::Value, ApiError>)
    ensures
        match outcome {
            Ok(document) => parse_outcome(body@) == Ok::<Json, Seq<char>>(json_view(document)),
            Err(ApiError::Decode(message)) => parse_outcome(body@) == Err::<Json, Seq<char>>(
                message@,
            ),
            Err(_) => false,
        },
{
    match from_slice(body) {
        Ok(document) => Ok(document),
        Err(fault) => Err(ApiError::Decode(fault_message(&fault))),
    }
}

/// A reply that was understood.
#[derive(Debug)]
pub struct Reply {
    /// The answer to the query.
    pub answer: String,
    /// The whole document that the service sent.
    pub document: serde_json::Value,
}

/// What a reply with `status` and `body` means: a status outside 200 to 299
/// is an error whatever the body holds; a body that is no JSON document is
/// an error; any other reply gives an answer, which is empty where the
/// document has no text at the expected place.
pub fn read_reply(status: u16, body: &[u8], style: EndpointStyle) -> (outcome: Result<
    Reply,
    ApiError,
>)
    ensures
        match outcome {
            Ok(reply) => {
                &&& is_success(status)
                &&& parse_outcome(body@) == Ok::<Json, Seq<char>>(json_view(reply.document))
                &&& reply.answer@ == answer_in(json_view(reply.document), style)
            },
            Err(ApiError::Status(code)) => !is_success(status) && code == status,
            Err(ApiError::Decode(message)) => {
                &&& is_success(status)
                &&& parse_outcome(body@) == Err::<Json, Seq<char>>(message@)
            },
            Err(ApiError::Transport(_)) => false,
        },
{
    if status < 200 || status > 299 {
        return Err(ApiError::Status(status));
    }
    match parse_document(body) {
        Ok(document) => {
            let answer = extract_answer(&document, style);
            Ok(Reply { answer, document })
        },
        Err(error) => Err(error),
    }
}

} // verus!
