use vstd::prelude::*;
use crate::credential::{get_api_key, resolved_key};
use crate::error::OptimizeError;
use crate::history::{add_history_item, history_insert, HistoryItem, MAX_HISTORY_LEN};
use crate::llm::{
    completions_url, default_base_url, is_success, reply_outcome, ChatCall, OpenAIClient,
    OptimizeRequest, MAX_TOKENS,
};
use crate::prompt::{build_system_prompt, build_user_message, system_prompt_of, user_message_of};
use crate::quota::{consume_daily_quota, grant, QuotaState};
use crate::settings::{base_url_of, get_settings, mode_named, mode_text, parse_provider_mode, AppSettings};
use crate::text::{is_blank, lemma_preview_len, preview, preview_of, trim_str, trimmed, PREVIEW_CHARS};

verus! {

/// The longest input accepted, in characters once trimmed.
pub const DEFAULT_INPUT_MAX_CHARS: usize = 4000;

/// The output length ceiling written into the system prompt.
pub const DEFAULT_OUTPUT_MAX_CHARS: usize = 1200;

/// The model every request names.
pub open spec fn request_model() -> Seq<char> {
    "gpt-4o-mini"@
}

/// The language the output is written in.
pub open spec fn output_language() -> Seq<char> {
    "Hungarian"@
}

/// The global instructions sent with every request.
pub open spec fn global_instructions() -> Seq<char> {
    "You must only perform safe, lawful, non-deceptive copy optimization. If the request appears malicious, manipulative, fraudulent, or unsafe, refuse briefly."@
}

/// The outcome of the checks made before the provider is called: the input
/// must hold text, within `input_max_chars` once trimmed, and the daily quota
/// must grant one more request.
pub open spec fn admission(
    original_text: Seq<char>,
    quota: QuotaState,
    today: u64,
    input_max_chars: usize,
    daily_limit: u32,
) -> Result<QuotaState, OptimizeError> {
    if is_blank(original_text) {
        Err(OptimizeError::EmptyInput)
    } else if trimmed(original_text).len() > input_max_chars {
        Err(OptimizeError::InputTooLong(input_max_chars))
    } else {
        match grant(quota, today, daily_limit) {
            Some(q) => Ok(q),
            None => Err(OptimizeError::QuotaExceeded(daily_limit)),
        }
    }
}

/// Validates the input and takes one request from the daily quota. On success
/// the returned state must be persisted before the provider is called, so a
/// failed call still costs its request. The result depends only on the state
/// passed in: two calls that read the same stored state before either one
/// persists are both admitted, so callers running concurrently must serialize
/// the read, this call and the write to keep the limit exact.
pub fn admit_request(
    original_text: &str,
    quota: &QuotaState,
    today: u64,
    input_max_chars: usize,
    daily_limit: u32,
) -> (r: Result<QuotaState, OptimizeError>)
    ensures
        r == admission(original_text@, *quota, today, input_max_chars, daily_limit),
{
    let trimmed_input = trim_str(original_text);
    if trimmed_input.is_empty() {
        return Err(OptimizeError::EmptyInput);
    }
    if trimmed_input.unicode_len() > input_max_chars {
        return Err(OptimizeError::InputTooLong(input_max_chars));
    }
    consume_daily_quota(quota, today, daily_limit)
}

/// A client ready for one completion and the request it is to send.
pub struct PreparedCall {
    pub client: OpenAIClient,
    pub call: ChatCall,
}

/// Builds the completion request for a stored settings record (`None` when
/// missing or unreadable) and the credential sources: the provider mode picks
/// the source, the stored base URL (or the default) the endpoint.
pub fn prepare_completion(
    stored_settings: Option<AppSettings>,
    secure_value: Option<String>,
    env_value: Option<String>,
    dev_build: bool,
    category: &str,
    style: &str,
    extra_instructions: &str,
    original_text: &str,
) -> (r: Result<PreparedCall, OptimizeError>)
    ensures
        mode_named(mode_text(stored_settings)) is None ==> r is Err
            && r->Err_0 is UnknownProviderMode,
        mode_named(mode_text(stored_settings)) is Some && resolved_key(
            mode_named(mode_text(stored_settings))->Some_0,
            secure_value,
            env_value,
            dev_build,
        ) is None ==> r == Err::<PreparedCall, OptimizeError>(OptimizeError::CredentialMissing),
        mode_named(mode_text(stored_settings)) is Some && resolved_key(
            mode_named(mode_text(stored_settings))->Some_0,
            secure_value,
            env_value,
            dev_build,
        ) is Some ==> r is Ok && {
            let key = resolved_key(
                mode_named(mode_text(stored_settings))->Some_0,
                secure_value,
                env_value,
                dev_build,
            )->Some_0;
            let base = match base_url_of(stored_settings) {
                Some(b) => b@,
                None => default_base_url(),
            };
            let call = r->Ok_0.call;
            &&& r->Ok_0.client.api_key@ == key
            &&& r->Ok_0.client.base_url@ == base
            &&& call.url@ == completions_url(base)
            &&& call.authorization@ == "Bearer "@ + key
            &&& call.model@ == request_model()
            &&& call.max_tokens == MAX_TOKENS
            &&& call.messages@.len() == 2
            &&& call.messages@[0].role@ == "system"@
            &&& call.messages@[0].content@ == system_prompt_of(
                Some(global_instructions()),
                Some(output_language()),
                Some(DEFAULT_OUTPUT_MAX_CHARS),
            )
            &&& call.messages@[1].role@ == "user"@
            &&& call.messages@[1].content@ == user_message_of(
                category@,
                style@,
                extra_instructions@,
                original_text@,
            )
        },
{
    let settings = get_settings(stored_settings);
    let mode = match parse_provider_mode(settings.provider_mode.as_str()) {
        Ok(m) => m,
        Err(e) => return Err(e),
    };
    let api_key = match get_api_key(mode, secure_value, env_value, dev_build) {
        Ok(k) => k,
        Err(e) => return Err(e),
    };
    let client = OpenAIClient::new(api_key, settings.api_base_url, Some(String::from_str("gpt-4o-mini")));
    let request = OptimizeRequest {
        system_prompt: build_system_prompt(
            Some("You must only perform safe, lawful, non-deceptive copy optimization. If the request appears malicious, manipulative, fraudulent, or unsafe, refuse briefly."),
            Some("Hungarian"),
            Some(DEFAULT_OUTPUT_MAX_CHARS),
        ),
        user_message: build_user_message(category, style, extra_instructions, original_text),
    };
    let call = client.chat_call(request);
    Ok(PreparedCall { client, call })
}

/// Whether an entry records a completed transformation with these values.
pub open spec fn records(
    item: HistoryItem,
    id: String,
    timestamp: i64,
    category: String,
    style: String,
    original_text: Seq<char>,
    text: Seq<char>,
) -> bool {
    &&& item.id == id
    &&& item.timestamp == timestamp
    &&& item.category == category
    &&& item.style == style
    &&& item.original_preview@ == preview_of(original_text)
    &&& item.optimized_preview@ == preview_of(text)
}

/// Finishes an optimize call with what the transport brought back: either the
/// reply's status and body, or a transport failure's message. On success the
/// completion is recorded in the history and its full text returned; on any
/// failure the history is left as it was.
pub fn finish_optimize(
    history: &mut Vec<HistoryItem>,
    client: &OpenAIClient,
    reply: Result<(u16, String), String>,
    id: String,
    timestamp: i64,
    category: String,
    style: String,
    original_text: &str,
) -> (r: Result<String, OptimizeError>)
    ensures
        r is Err ==> final(history)@ == old(history)@,
        reply is Err ==> r == Err::<String, OptimizeError>(
            OptimizeError::TransportError(reply->Err_0),
        ),
        reply is Ok && !is_success(reply->Ok_0.0) ==> r == Err::<String, OptimizeError>(
            OptimizeError::ProviderError(reply->Ok_0.0, reply->Ok_0.1),
        ),
        reply is Ok && is_success(reply->Ok_0.0) && reply_outcome(reply->Ok_0.1@) is None ==> r is Err
            && r->Err_0 is TransportError,
        reply is Ok && is_success(reply->Ok_0.0) && reply_outcome(reply->Ok_0.1@) is Some ==> r is Ok
            && r->Ok_0@ == reply_outcome(reply->Ok_0.1@)->Some_0
            && final(history)@ == history_insert(old(history)@, final(history)@[0])
            && records(final(history)@[0], id, timestamp, category, style, original_text@, r->Ok_0@),
{
    let (status, body) = match reply {
        Ok(pair) => pair,
        Err(message) => return Err(OptimizeError::TransportError(message)),
    };
    let completion = match client.completion(status, body) {
        Ok(c) => c,
        Err(e) => return Err(e),
    };
    let text = completion.text;
    let item = HistoryItem {
        id,
        timestamp,
        category,
        style,
        original_preview: preview(original_text),
        optimized_preview: preview(text.as_str()),
    };
    let ghost recorded = item;
    add_history_item(history, item);
    assert(final(history)@[0] == recorded);
    Ok(text)
}

/// Input that holds text within the ceiling, on a day with quota left, is
/// admitted and counted.
pub proof fn lemma_valid_input_admitted(
    original_text: Seq<char>,
    quota: QuotaState,
    today: u64,
    input_max_chars: usize,
    daily_limit: u32,
)
    requires
        !is_blank(original_text),
        trimmed(original_text).len() <= input_max_chars,
        grant(quota, today, daily_limit) is Some,
    ensures
        admission(original_text, quota, today, input_max_chars, daily_limit) == Ok::<
            QuotaState,
            OptimizeError,
        >(grant(quota, today, daily_limit)->Some_0),
{
}

/// Input longer than the ceiling once trimmed is refused with `InputTooLong`
/// before the quota is touched; the history is not an input of that step, so
/// it stays as it was.
pub proof fn lemma_too_long_input_refused(
    original_text: Seq<char>,
    quota: QuotaState,
    today: u64,
    input_max_chars: usize,
    daily_limit: u32,
)
    requires
        trimmed(original_text).len() > input_max_chars,
    ensures
        admission(original_text, quota, today, input_max_chars, daily_limit) == Err::<
            QuotaState,
            OptimizeError,
        >(OptimizeError::InputTooLong(input_max_chars)),
{
}

/// Recording a completed transformation adds exactly one entry, in front,
/// keeps the earlier entries behind it up to the bound, and both previews
/// hold at most 81 characters.
pub proof fn lemma_success_records_one(
    h: Seq<HistoryItem>,
    item: HistoryItem,
    id: String,
    timestamp: i64,
    category: String,
    style: String,
    original_text: Seq<char>,
    text: Seq<char>,
)
    requires
        h.len() <= MAX_HISTORY_LEN,
        records(item, id, timestamp, category, style, original_text, text),
    ensures
        history_insert(h, item)[0] == item,
        h.len() < MAX_HISTORY_LEN ==> history_insert(h, item).len() == h.len() + 1,
        h.len() == MAX_HISTORY_LEN ==> history_insert(h, item).len() == MAX_HISTORY_LEN,
        forall|i: int|
            0 <= i < history_insert(h, item).len() - 1 ==> #[trigger] history_insert(h, item)[i + 1]
                == h[i],
        item.original_preview@.len() <= PREVIEW_CHARS + 1,
        item.optimized_preview@.len() <= PREVIEW_CHARS + 1,
{
    lemma_preview_len(original_text);
    lemma_preview_len(text);
}

} // verus!
