use contentizer::commands::{
    admit_request, finish_optimize, prepare_completion, DEFAULT_INPUT_MAX_CHARS,
};
use contentizer::credential::{get_api_key, has_api_key, set_api_key};
use contentizer::error::OptimizeError;
use contentizer::history::{add_history_item, clear_history, HistoryItem, MAX_HISTORY_LEN};
use contentizer::llm::{CompletionResult, LLMClient, OpenAIClient, OptimizeRequest};
use contentizer::presets::{default_presets, get_presets};
use contentizer::prompt::{build_system_prompt, build_user_message};
use contentizer::quota::{
    consume_daily_quota, current_day_bucket_utc, day_bucket_of, initial_quota, QuotaState,
};
use contentizer::settings::{get_settings, parse_provider_mode, set_settings, AppSettings, ProviderMode};
use contentizer::text::{preview, push_decimal};

fn item(n: usize) -> HistoryItem {
    HistoryItem {
        id: format!("id{}", n),
        timestamp: n as i64,
        category: "Email".to_string(),
        style: "Formal".to_string(),
        original_preview: format!("original {}", n),
        optimized_preview: format!("optimized {}", n),
    }
}

fn local_settings() -> Option<AppSettings> {
    Some(AppSettings {
        provider_mode: "local".to_string(),
        api_key: None,
        api_base_url: Some("https://example.test/v1/".to_string()),
        model: None,
    })
}

fn reply_body(content: &str) -> String {
    format!("{{\"choices\":[{{\"message\":{{\"role\":\"assistant\",\"content\":{:?}}}}}]}}", content)
}

#[test]
fn system_prompt_with_every_clause() {
    let p = build_system_prompt(Some("  be kind  "), Some(" Hungarian "), Some(1200));
    assert_eq!(
        p,
        "You are a professional copy editor.\n\
         Improve the user's text according to the selected category and style.\n\
         Return ONLY the improved text. Do not add explanations, preamble, or markdown unless the input already uses markdown.\n\
         Write the output in Hungarian.\n\
         Keep the output concise and under 1200 characters.\n\
         Global instructions: be kind"
    );
}

#[test]
fn system_prompt_omits_absent_and_blank_clauses() {
    let base = "You are a professional copy editor.\n\
         Improve the user's text according to the selected category and style.\n\
         Return ONLY the improved text. Do not add explanations, preamble, or markdown unless the input already uses markdown.";
    assert_eq!(build_system_prompt(None, None, None), base);
    assert_eq!(build_system_prompt(Some("   "), Some(""), None), base);
    assert_eq!(
        build_system_prompt(None, None, Some(0)),
        format!("{}\nKeep the output concise and under 0 characters.", base)
    );
    assert_eq!(
        build_system_prompt(Some("x"), None, None),
        format!("{}\nGlobal instructions: x", base)
    );
}

#[test]
fn prompt_builder_is_deterministic() {
    let a = build_system_prompt(Some("g"), Some("French"), Some(42));
    let b = build_system_prompt(Some("g"), Some("French"), Some(42));
    assert_eq!(a, b);
    let c = build_user_message("Email", "Formal", "short", " text ");
    let d = build_user_message("Email", "Formal", "short", " text ");
    assert_eq!(c, d);
}

#[test]
fn user_message_with_and_without_extra_instructions() {
    assert_eq!(
        build_user_message("Email", "Formal", "  be brief ", "  pls fix my txt \n"),
        "Category: Email\n\nStyle: Formal\n\nExtra instructions: be brief\n\n---\n\nOriginal text to optimize:\n\npls fix my txt"
    );
    assert_eq!(
        build_user_message("Email", "Formal", " ", "pls fix my txt"),
        "Category: Email\n\nStyle: Formal\n\n---\n\nOriginal text to optimize:\n\npls fix my txt"
    );
}

#[test]
fn decimal_notation() {
    let mut s = String::from("n=");
    push_decimal(&mut s, 0);
    assert_eq!(s, "n=0");
    let mut t = String::new();
    push_decimal(&mut t, 18446744073709551615);
    assert_eq!(t, "18446744073709551615");
    let mut u = String::new();
    push_decimal(&mut u, 1200);
    assert_eq!(u, "1200");
}

#[test]
fn preview_truncates_long_text() {
    assert_eq!(preview("short"), "short");
    let exact: String = "a".repeat(80);
    assert_eq!(preview(&exact), exact);
    let long: String = "\u{e9}".repeat(100);
    let p = preview(&long);
    assert_eq!(p.chars().count(), 81);
    assert_eq!(p, format!("{}\u{2026}", "\u{e9}".repeat(80)));
}

#[test]
fn presets_are_fixed() {
    let p = default_presets();
    assert_eq!(
        p.categories,
        vec!["Email", "LinkedIn", "SEO", "Support", "Product description", "Resume/CV"]
    );
    assert_eq!(
        p.styles,
        vec!["Formal", "Friendly", "Concise", "Persuasive", "Technical", "Casual"]
    );
    assert_eq!(get_presets().categories.len(), 6);
}

#[test]
fn client_defaults_and_request_shape() {
    let c = OpenAIClient::new("k".to_string(), None, None);
    assert_eq!(c.base_url, "https://api.openai.com/v1");
    assert_eq!(c.model, "gpt-4o-mini");
    let c2 = OpenAIClient::new(
        "secret".to_string(),
        Some("http://localhost:8080/v1//".to_string()),
        Some("m".to_string()),
    );
    let call = c2.request_for(OptimizeRequest {
        system_prompt: "sys".to_string(),
        user_message: "usr".to_string(),
    });
    assert_eq!(call.url, "http://localhost:8080/v1/chat/completions");
    assert_eq!(call.authorization, "Bearer secret");
    assert_eq!(call.model, "m");
    assert_eq!(call.max_tokens, 4096);
    assert_eq!(call.messages.len(), 2);
    assert_eq!(call.messages[0].role, "system");
    assert_eq!(call.messages[0].content, "sys");
    assert_eq!(call.messages[1].role, "user");
    assert_eq!(call.messages[1].content, "usr");
}

#[test]
fn reply_handling() {
    let c = OpenAIClient::new("k".to_string(), None, None);
    let ok: Result<CompletionResult, OptimizeError> =
        c.read_reply(200, reply_body("  Hello there.\n"));
    assert_eq!(ok.unwrap().text, "Hello there.");
    let none = c.read_reply(200, "{\"choices\":[]}".to_string());
    assert_eq!(none.unwrap().text, "");
    let bad = c.read_reply(200, "not json".to_string());
    assert!(matches!(bad, Err(OptimizeError::TransportError(_))));
    let err = c.read_reply(429, "rate limited".to_string());
    match err {
        Err(OptimizeError::ProviderError(s, b)) => {
            assert_eq!(s, 429);
            assert_eq!(b, "rate limited");
        }
        _ => panic!("expected a provider error"),
    }
    assert!(matches!(c.read_reply(500, reply_body("x")), Err(OptimizeError::ProviderError(500, _))));
}

#[test]
fn quota_grants_up_to_the_limit_then_refuses() {
    let mut q = initial_quota();
    let today: u64 = 20000;
    for n in 1..=3u32 {
        q = consume_daily_quota(&q, today, 3).unwrap();
        assert_eq!(q, QuotaState { day_bucket: today, used: n });
    }
    assert!(matches!(consume_daily_quota(&q, today, 3), Err(OptimizeError::QuotaExceeded(3))));
    let next = consume_daily_quota(&q, today + 1, 3).unwrap();
    assert_eq!(next, QuotaState { day_bucket: today + 1, used: 1 });
}

#[test]
fn quota_limit_zero_allows_every_request() {
    let q = QuotaState { day_bucket: 5, used: 99 };
    assert_eq!(consume_daily_quota(&q, 6, 0).unwrap(), q);
}

#[test]
fn day_buckets() {
    assert_eq!(day_bucket_of(0), 0);
    assert_eq!(day_bucket_of(86_399), 0);
    assert_eq!(day_bucket_of(86_400), 1);
    assert_eq!(day_bucket_of(1_700_000_000), 19675);
    assert!(current_day_bucket_utc() > 19675);
}

#[test]
fn concurrent_calls_from_one_quota_state_both_pass() {
    // Admission is a function of the state that was read: two calls that read
    // the same state before either one persists are both admitted, which is
    // the known overshoot; taken one after the other, the second is refused.
    let q = QuotaState { day_bucket: 7, used: 19 };
    let a = admit_request("first", &q, 7, DEFAULT_INPUT_MAX_CHARS, 20);
    let b = admit_request("second", &q, 7, DEFAULT_INPUT_MAX_CHARS, 20);
    assert!(a.is_ok() && b.is_ok());
    let after = a.unwrap();
    assert!(matches!(
        admit_request("second", &after, 7, DEFAULT_INPUT_MAX_CHARS, 20),
        Err(OptimizeError::QuotaExceeded(20))
    ));
}

#[test]
fn admission_errors() {
    let q = QuotaState { day_bucket: 1, used: 0 };
    assert!(matches!(admit_request("  \n ", &q, 1, 10, 20), Err(OptimizeError::EmptyInput)));
    assert!(matches!(admit_request("", &q, 1, 10, 20), Err(OptimizeError::EmptyInput)));
    assert!(matches!(
        admit_request("  elevenchars  ", &q, 1, 10, 20),
        Err(OptimizeError::InputTooLong(10))
    ));
    assert_eq!(
        admit_request("  tenchars!  ", &q, 1, 10, 20).unwrap(),
        QuotaState { day_bucket: 1, used: 1 }
    );
}

#[test]
fn too_long_input_leaves_history_unchanged() {
    let history: Vec<HistoryItem> = vec![item(1)];
    let q = QuotaState { day_bucket: 1, used: 0 };
    let long = "x".repeat(DEFAULT_INPUT_MAX_CHARS + 1);
    assert!(matches!(
        admit_request(&long, &q, 1, DEFAULT_INPUT_MAX_CHARS, 20),
        Err(OptimizeError::InputTooLong(4000))
    ));
    assert_eq!(history.len(), 1);
}

#[test]
fn history_keeps_twenty_most_recent() {
    let mut h: Vec<HistoryItem> = Vec::new();
    for n in 0..25 {
        add_history_item(&mut h, item(n));
    }
    assert_eq!(h.len(), MAX_HISTORY_LEN);
    for (i, entry) in h.iter().enumerate() {
        assert_eq!(entry.id, format!("id{}", 24 - i));
    }
    clear_history(&mut h);
    assert!(h.is_empty());
}

#[test]
fn settings_round_trip_drops_credential() {
    let existing = Some(AppSettings {
        provider_mode: "keychain".to_string(),
        api_key: Some("old".to_string()),
        api_base_url: None,
        model: None,
    });
    let submitted = AppSettings {
        provider_mode: "env".to_string(),
        api_key: Some("new".to_string()),
        api_base_url: Some("http://proxy".to_string()),
        model: Some("m1".to_string()),
    };
    let saved = set_settings(existing, submitted);
    assert_eq!(saved.api_key.as_deref(), Some("old"));
    let shown = get_settings(Some(saved));
    assert_eq!(shown.provider_mode, "env");
    assert_eq!(shown.api_base_url.as_deref(), Some("http://proxy"));
    assert_eq!(shown.model.as_deref(), Some("m1"));
    assert!(shown.api_key.is_none());
}

#[test]
fn settings_defaults() {
    let shown = get_settings(None);
    assert_eq!(shown.provider_mode, "local");
    assert!(shown.api_base_url.is_none() && shown.model.is_none() && shown.api_key.is_none());
    let blank_mode = AppSettings {
        provider_mode: String::new(),
        api_key: Some("k".to_string()),
        api_base_url: None,
        model: None,
    };
    assert_eq!(get_settings(Some(blank_mode)).provider_mode, "local");
}

#[test]
fn provider_modes() {
    assert_eq!(parse_provider_mode("env").unwrap(), ProviderMode::Env);
    assert_eq!(parse_provider_mode("keychain").unwrap(), ProviderMode::Keychain);
    assert_eq!(parse_provider_mode("local").unwrap(), ProviderMode::Local);
    assert_eq!(parse_provider_mode("").unwrap(), ProviderMode::Local);
    match parse_provider_mode("cloud") {
        Err(OptimizeError::UnknownProviderMode(m)) => assert_eq!(m, "cloud"),
        _ => panic!("expected an unknown mode"),
    }
}

#[test]
fn credential_resolution() {
    let s = |v: &str| Some(v.to_string());
    assert_eq!(get_api_key(ProviderMode::Local, s(" key "), s("env"), true).unwrap(), "key");
    assert_eq!(get_api_key(ProviderMode::Keychain, s("  "), s(" env "), true).unwrap(), "env");
    assert!(matches!(
        get_api_key(ProviderMode::Keychain, None, s("env"), false),
        Err(OptimizeError::CredentialMissing)
    ));
    assert_eq!(get_api_key(ProviderMode::Env, s("key"), s(" env\n"), false).unwrap(), "env");
    assert!(matches!(
        get_api_key(ProviderMode::Env, s("key"), s("   "), true),
        Err(OptimizeError::CredentialMissing)
    ));
    assert!(has_api_key(&s("k"), &None, false));
    assert!(has_api_key(&None, &s("e"), true));
    assert!(!has_api_key(&None, &s("e"), false));
    assert!(!has_api_key(&s(" "), &None, true));
}

#[test]
fn setting_a_credential() {
    assert_eq!(set_api_key("  sk-abc \n").unwrap(), "sk-abc");
    assert!(matches!(set_api_key(" \t "), Err(OptimizeError::InvalidCredential)));
}

#[test]
fn prepare_reports_missing_credential_and_unknown_mode() {
    assert!(matches!(
        prepare_completion(local_settings(), None, None, true, "Email", "Formal", "", "hi"),
        Err(OptimizeError::CredentialMissing)
    ));
    let odd = Some(AppSettings {
        provider_mode: "cloud".to_string(),
        api_key: None,
        api_base_url: None,
        model: None,
    });
    assert!(matches!(
        prepare_completion(odd, Some("k".to_string()), None, true, "Email", "Formal", "", "hi"),
        Err(OptimizeError::UnknownProviderMode(_))
    ));
}

#[test]
fn optimize_with_stub_provider_records_history() {
    let q = QuotaState { day_bucket: 3, used: 0 };
    let q2 = admit_request("pls fix my txt", &q, 3, DEFAULT_INPUT_MAX_CHARS, 20).unwrap();
    assert_eq!(q2.used, 1);
    let prepared = prepare_completion(
        local_settings(),
        Some("sk-test".to_string()),
        None,
        false,
        "Email",
        "Formal",
        "",
        "pls fix my txt",
    )
    .unwrap();
    assert_eq!(prepared.call.url, "https://example.test/v1/chat/completions");
    assert_eq!(prepared.call.authorization, "Bearer sk-test");
    assert_eq!(prepared.call.model, "gpt-4o-mini");
    assert!(prepared.call.messages[0].content.contains("Write the output in Hungarian."));
    assert_eq!(
        prepared.call.messages[1].content,
        build_user_message("Email", "Formal", "", "pls fix my txt")
    );
    let mut history: Vec<HistoryItem> = vec![item(0)];
    let text = finish_optimize(
        &mut history,
        &prepared.client,
        Ok((200, reply_body("Please review the attached text."))),
        "1700000000000".to_string(),
        1_700_000_000,
        "Email".to_string(),
        "Formal".to_string(),
        "pls fix my txt",
    )
    .unwrap();
    assert_eq!(text, "Please review the attached text.");
    assert_eq!(history.len(), 2);
    assert_eq!(history[0].category, "Email");
    assert_eq!(history[0].style, "Formal");
    assert_eq!(history[0].original_preview, "pls fix my txt");
    assert_eq!(history[0].optimized_preview, "Please review the attached text.");
    assert_eq!(history[1].id, "id0");
}

#[test]
fn optimize_long_reply_keeps_full_text_and_short_previews() {
    let client = OpenAIClient::new("k".to_string(), None, None);
    let long_reply = "word ".repeat(40);
    let original = "y".repeat(200);
    let mut history: Vec<HistoryItem> = Vec::new();
    let text = finish_optimize(
        &mut history,
        &client,
        Ok((200, reply_body(&long_reply))),
        "1".to_string(),
        1,
        "SEO".to_string(),
        "Concise".to_string(),
        &original,
    )
    .unwrap();
    assert_eq!(text, long_reply.trim());
    assert_eq!(history.len(), 1);
    assert_eq!(history[0].original_preview.chars().count(), 81);
    assert_eq!(history[0].optimized_preview.chars().count(), 81);
    assert!(history[0].optimized_preview.ends_with('\u{2026}'));
}

#[test]
fn optimize_rate_limited_adds_no_history() {
    let client = OpenAIClient::new("k".to_string(), None, None);
    let mut history: Vec<HistoryItem> = vec![item(1)];
    let r = finish_optimize(
        &mut history,
        &client,
        Ok((429, "rate limited".to_string())),
        "2".to_string(),
        2,
        "Email".to_string(),
        "Formal".to_string(),
        "pls fix my txt",
    );
    match r {
        Err(OptimizeError::ProviderError(s, b)) => {
            assert_eq!(s, 429);
            assert_eq!(b, "rate limited");
        }
        _ => panic!("expected a provider error"),
    }
    assert_eq!(history.len(), 1);
    assert_eq!(history[0].id, "id1");
}

#[test]
fn optimize_transport_failure_adds_no_history() {
    let client = OpenAIClient::new("k".to_string(), None, None);
    let mut history: Vec<HistoryItem> = Vec::new();
    let r = finish_optimize(
        &mut history,
        &client,
        Err("connection refused".to_string()),
        "3".to_string(),
        3,
        "Email".to_string(),
        "Formal".to_string(),
        "text",
    );
    match r {
        Err(OptimizeError::TransportError(m)) => assert_eq!(m, "connection refused"),
        _ => panic!("expected a transport error"),
    }
    assert!(history.is_empty());
}
