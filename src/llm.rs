use vstd::prelude::*;
use crate::error::OptimizeError;
use crate::text::{trim_owned, trimmed};

verus! {

/// The prompt pair sent for one completion.
#[derive(Debug, Clone)]
pub struct OptimizeRequest {
    pub system_prompt: String,
    pub user_message: String,
}

/// The text of a single completion.
#[derive(Debug)]
pub struct CompletionResult {
    pub text: String,
}

/// One chat message of a completion request.
#[derive(Debug, Clone)]
pub struct ChatMessage {
    pub role: String,
    pub content: String,
}

/// Everything the transport needs to send one completion request: where to,
/// the authorization header's value, and the JSON payload's fields.
#[derive(Debug, Clone)]
pub struct ChatCall {
    pub url: String,
    pub authorization: String,
    pub model: String,
    pub messages: Vec<ChatMessage>,
    pub max_tokens: u32,
}

/// A completion provider: it turns a prompt pair into the request to send,
/// and the reply that came back into the completion's text.
pub trait LLMClient {
    fn request_for(&self, request: OptimizeRequest) -> ChatCall;

    fn read_reply(&self, status: u16, body: String) -> Result<CompletionResult, OptimizeError>;
}

/// The endpoint used when no base URL is configured.
pub open spec fn default_base_url() -> Seq<char> {
    "https://api.openai.com/v1"@
}

/// The model used when none is configured.
pub open spec fn default_model() -> Seq<char> {
    "gpt-4o-mini"@
}

/// The generation-length cap sent with every request.
pub const MAX_TOKENS: u32 = 4096;

/// An OpenAI-compatible chat completions client.
pub struct OpenAIClient {
    pub api_key: String,
    pub base_url: String,
    pub model: String,
}

/// `s` without the slashes at its end.
pub open spec fn strip_trailing_slashes(s: Seq<char>) -> Seq<char>
    decreases s.len(),
{
    if s.len() > 0 && s.last() == '/' {
        strip_trailing_slashes(s.drop_last())
    } else {
        s
    }
}

/// The chat completions address under a base URL.
pub open spec fn completions_url(base_url: Seq<char>) -> Seq<char> {
    strip_trailing_slashes(base_url) + "/chat/completions"@
}

/// What the first choice of a completion reply holds, read as JSON: `None`
/// when the body is not JSON, `Some(None)` when it has no first choice with
/// a message content string.
pub uninterp spec fn reply_content(body: Seq<char>) -> Option<Option<Seq<char>>>;

/// The views inside a doubly optional string.
pub open spec fn nested_view(r: Option<Option<String>>) -> Option<Option<Seq<char>>> {
    match r {
        Some(Some(s)) => Some(Some(s@)),
        Some(None) => Some(None),
        None => None,
    }
}

/// Relies on `serde_json::from_str` to read the body as a JSON value, and on
/// `Value::pointer` and `Value::as_str` to pick the first choice's message
/// content: the outcome depends on the body's characters alone.
#[verifier::external_body]
fn first_choice_content(body: &str) -> (r: Option<Option<String>>)
    ensures
        nested_view(r) == reply_content(body@),
{
    match serde_json::from_str::<serde_json::Value>(body) {
        Ok(v) => Some(
            v.pointer("/choices/0/message/content")
                .and_then(serde_json::Value::as_str)
                .map(str::to_string),
        ),
        Err(_) => None,
    }
}

/// Whether an HTTP status counts as success.
pub open spec fn is_success(status: u16) -> bool {
    200 <= status <= 299
}

/// The completion text for what the first choice holds: its content trimmed,
/// or empty when there is no choice; a body that is not JSON is a transport
/// failure.
pub open spec fn completion_of(content: Option<Option<Seq<char>>>) -> Option<Seq<char>> {
    match content {
        Some(Some(c)) => Some(trimmed(c)),
        Some(None) => Some(Seq::empty()),
        None => None,
    }
}

/// Turns what the first choice of a reply holds into the completion.
pub fn completion_from_content(content: Option<Option<String>>) -> (r: Result<
    CompletionResult,
    OptimizeError,
>)
    ensures
        completion_of(nested_view(content)) is Some ==> r is Ok
            && r->Ok_0.text@ == completion_of(nested_view(content))->Some_0,
        completion_of(nested_view(content)) is None ==> r is Err && r->Err_0 is TransportError,
{
    match content {
        Some(Some(c)) => Ok(CompletionResult { text: trim_owned(c.as_str()) }),
        Some(None) => Ok(CompletionResult { text: String::new() }),
        None => Err(OptimizeError::TransportError(String::from_str("the reply is not valid JSON"))),
    }
}

/// The completion text that a successful reply's body yields, if any.
pub open spec fn reply_outcome(body: Seq<char>) -> Option<Seq<char>> {
    completion_of(reply_content(body))
}

impl OpenAIClient {
    /// A client for `base_url` and `model`, each with its default when absent.
    pub fn new(api_key: String, base_url: Option<String>, model: Option<String>) -> (r: Self)
        ensures
            r.api_key == api_key,
            r.base_url@ == (match base_url {
                Some(b) => b@,
                None => default_base_url(),
            }),
            r.model@ == (match model {
                Some(m) => m@,
                None => default_model(),
            }),
    {
        let base_url = match base_url {
            Some(b) => b,
            None => String::from_str("https://api.openai.com/v1"),
        };
        let model = match model {
            Some(m) => m,
            None => String::from_str("gpt-4o-mini"),
        };
        OpenAIClient { api_key, base_url, model }
    }

    /// The chat request for a prompt pair: the system message, then the user
    /// message, with a bearer authorization and the fixed token cap.
    pub fn chat_call(&self, request: OptimizeRequest) -> (r: ChatCall)
        ensures
            r.url@ == completions_url(self.base_url@),
            r.authorization@ == "Bearer "@ + self.api_key@,
            r.model@ == self.model@,
            r.max_tokens == MAX_TOKENS,
            r.messages@.len() == 2,
            r.messages@[0].role@ == "system"@,
            r.messages@[0].content == request.system_prompt,
            r.messages@[1].role@ == "user"@,
            r.messages@[1].content == request.user_message,
    {
        let base: &str = self.base_url.as_str();
        let total: usize = base.unicode_len();
        let mut n: usize = total;
        assert(base@.take(total as int) =~= base@);
        while n > 0 && base.get_char(n - 1) == '/'
            invariant
                n <= total,
                total == base@.len(),
                strip_trailing_slashes(base@.take(n as int)) == strip_trailing_slashes(base@),
            decreases n,
        {
            assert(base@.take(n as int).drop_last() =~= base@.take(n - 1));
            n = n - 1;
        }
        let mut url = String::from_str(base.substring_char(0, n));
        assert(url@ =~= base@.take(n as int));
        url.append("/chat/completions");
        let mut authorization = String::from_str("Bearer ");
        authorization.append(self.api_key.as_str());
        let mut messages: Vec<ChatMessage> = Vec::new();
        messages.push(ChatMessage { role: String::from_str("system"), content: request.system_prompt });
        messages.push(ChatMessage { role: String::from_str("user"), content: request.user_message });
        ChatCall { url, authorization, model: self.model.clone(), messages, max_tokens: MAX_TOKENS }
    }

    /// The completion for a reply: `ProviderError(status, body)` for a
    /// non-success status, else the trimmed content of the first choice, empty
    /// when there is none.
    pub fn completion(&self, status: u16, body: String) -> (r: Result<CompletionResult, OptimizeError>)
        ensures
            !is_success(status) ==> r == Err::<CompletionResult, OptimizeError>(
                OptimizeError::ProviderError(status, body),
            ),
            is_success(status) && reply_outcome(body@) is Some ==> r is Ok
                && r->Ok_0.text@ == reply_outcome(body@)->Some_0,
            is_success(status) && reply_outcome(body@) is None ==> r is Err
                && r->Err_0 is TransportError,
    {
        if status < 200 || status > 299 {
            return Err(OptimizeError::ProviderError(status, body));
        }
        completion_from_content(first_choice_content(body.as_str()))
    }
}

impl LLMClient for OpenAIClient {
    fn request_for(&self, request: OptimizeRequest) -> ChatCall {
        self.chat_call(request)
    }

    fn read_reply(&self, status: u16, body: String) -> Result<CompletionResult, OptimizeError> {
        self.completion(status, body)
    }
}

} // verus!
