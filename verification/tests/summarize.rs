use clawhip::codec::parse_json;
use clawhip::config::ProvidersConfig;
use clawhip::json::Json;
use clawhip::registry::RegisteredTmuxSession;
use clawhip::summarize::{
    answered_summary, build_summarizer, extract_openai_response_text, failed_summary,
    gemini_summary, openai_chat_request, parse_summarizer_spec, summarize_system_prompt,
    tmux_content_changed_event, truncate_for_summarizer, Backend, ContentMode,
    RawPassthroughSummarizer, ServiceEnv, Summarizer, SummarizerSpec, SummaryCall,
    DEFAULT_GEMINI_MODEL,
};

fn json(text: &str) -> Json {
    parse_json(text).unwrap()
}

fn at<'a>(payload: &'a Json, path: &str) -> Option<&'a str> {
    let mut here = payload;
    for part in path.split('/').skip(1) {
        here = match here.as_array() {
            Some(items) => items.get(part.parse::<usize>().ok()?)?,
            None => here.get(part)?,
        };
    }
    here.as_str()
}

fn no_env() -> ServiceEnv {
    ServiceEnv { openrouter_api_key: None, openai_api_key: None, openai_base_url: None }
}

#[test]
fn truncate_short_content_unchanged() {
    let content = "hello world";
    assert_eq!(truncate_for_summarizer(content), "hello world");
}

#[test]
fn truncate_long_content() {
    let content = "A".repeat(5000);
    let truncated = truncate_for_summarizer(&content);
    assert_eq!(truncated.len(), 4000);
    assert_eq!(truncated, "A".repeat(4000));
}

#[test]
fn truncate_at_char_boundary() {
    let prefix = "A".repeat(3998);
    let content = format!("{}€{}", prefix, "Z");
    let truncated = truncate_for_summarizer(&content);
    assert!(truncated.len() <= 4000);
}

#[test]
fn parse_summarizer_spec_supports_raw() {
    assert_eq!(parse_summarizer_spec("raw").unwrap(), SummarizerSpec::Raw);
}

#[test]
fn parse_summarizer_spec_supports_openrouter() {
    assert_eq!(
        parse_summarizer_spec("openrouter:google/gemini-2.5-flash").unwrap(),
        SummarizerSpec::OpenRouter {
            model: "google/gemini-2.5-flash".into()
        }
    );
}

#[test]
fn parse_summarizer_spec_supports_openai() {
    assert_eq!(
        parse_summarizer_spec("openai:gpt-4.1-mini").unwrap(),
        SummarizerSpec::OpenAiCompatible {
            model: "gpt-4.1-mini".into()
        }
    );
}

#[test]
fn parse_summarizer_spec_defaults_gemini() {
    assert_eq!(
        parse_summarizer_spec("gemini").unwrap(),
        SummarizerSpec::Gemini {
            model: DEFAULT_GEMINI_MODEL.into()
        }
    );
}

#[test]
fn parse_summarizer_spec_with_gemini_model() {
    assert_eq!(
        parse_summarizer_spec("gemini:gemini-2.5-pro").unwrap(),
        SummarizerSpec::Gemini {
            model: "gemini-2.5-pro".into()
        }
    );
}

#[test]
fn parse_summarizer_spec_empty_gemini_model_uses_default() {
    assert_eq!(
        parse_summarizer_spec("gemini:").unwrap(),
        SummarizerSpec::Gemini {
            model: DEFAULT_GEMINI_MODEL.into()
        }
    );
}

#[test]
fn parse_summarizer_spec_rejects_unknown_prefix() {
    assert!(parse_summarizer_spec("custom:something").is_err());
}

#[test]
fn raw_passthrough_returns_truncated_content() {
    let backend = Backend::Raw(RawPassthroughSummarizer);
    let SummaryCall::Ready(output) = backend.call("hello world", "issue-24", "Codex") else {
        panic!("expected the content as it stands");
    };
    assert_eq!(output.summary, "hello world");
    assert_eq!(output.raw_truncated, "hello world");
    assert_eq!(output.backend, "raw");
    assert_eq!(output.content_mode, ContentMode::Raw);
}

#[test]
fn openai_chat_request_contains_model_and_messages() {
    let payload = openai_chat_request("gpt-4o-mini", "issue-24", "build failed", "Codex");
    assert_eq!(payload.raw_field("model"), Some("gpt-4o-mini"));
    assert_eq!(at(&payload, "/messages/0/role"), Some("system"));
    assert_eq!(at(&payload, "/messages/1/role"), Some("user"));
    assert!(
        at(&payload, "/messages/1/content")
            .unwrap()
            .contains("issue-24")
    );
}

#[test]
fn extract_openai_response_text_supports_string_content() {
    let payload = json(r##"{ "choices": [ { "message": { "content": "agent fixed the test" } } ] }"##);
    assert_eq!(
        extract_openai_response_text(&payload).as_deref(),
        Some("agent fixed the test")
    );
}

#[test]
fn extract_openai_response_text_supports_content_parts() {
    let payload = json(r##"{ "choices": [ { "message": { "content": [ {"type": "text", "text": "agent is compiling"}, {"type": "text", "text": "waiting on cargo"} ] } } ] }"##);
    assert_eq!(
        extract_openai_response_text(&payload).as_deref(),
        Some("agent is compiling\nwaiting on cargo")
    );
}

#[test]
fn build_summarizer_supports_raw() {
    assert!(build_summarizer("raw", &ProvidersConfig::default(), &no_env()).is_ok());
}

#[test]
fn system_prompt_includes_waiting_for_input_status_marker() {
    let prompt = summarize_system_prompt("Codex");
    assert!(
        prompt.contains("STATUS: WAITING_FOR_INPUT"),
        "system prompt must instruct the LLM to emit STATUS: WAITING_FOR_INPUT"
    );
    // Confirm it covers the key OMC/OMX trigger patterns
    assert!(prompt.contains("[Y/n]") || prompt.contains("Allow, Deny"));
    assert!(prompt.contains("continue?") || prompt.contains("proceed?"));
}

#[test]
fn services_need_a_key() {
    let providers = ProvidersConfig::default();
    assert!(build_summarizer("openai:gpt-4.1-mini", &providers, &no_env()).is_err());
    let env = ServiceEnv { openai_api_key: Some("key".into()), ..no_env() };
    let Ok(Backend::OpenAi(service)) = build_summarizer("openai:gpt-4.1-mini", &providers, &env)
    else {
        panic!("expected a service");
    };
    assert_eq!(service.name(), "openai-compatible");
    let error = failed_summary(&service, "500 Internal Server Error", "broken");
    assert!(error.contains("500 Internal Server Error"));
    let answer = json(r#"{"choices":[{"message":{"content":" fixed "}}]}"#);
    let summary = answered_summary(&service, "content", &answer).unwrap();
    assert_eq!(summary.summary, "fixed");
    assert_eq!(summary.raw_truncated, "content");
    assert_eq!(summary.content_mode, ContentMode::Summary);
    assert!(answered_summary(&service, "content", &json("{}")).is_err());
    let SummaryCall::Post { url, api_key, body } =
        Backend::OpenAi(service).call("content", "issue-24", "Codex")
    else {
        panic!("expected a request");
    };
    assert_eq!(url, "https://api.openai.com/v1/chat/completions");
    assert_eq!(api_key, "key");
    assert_eq!(body.raw_field("model"), Some("gpt-4.1-mini"));
}

#[test]
fn gemini_is_asked_on_the_command_line() {
    let Ok(backend) = build_summarizer("gemini", &ProvidersConfig::default(), &no_env()) else {
        panic!("expected a summarizer");
    };
    let SummaryCall::Gemini { model, prompt } = backend.call("content", "issue-24", "Codex") else {
        panic!("expected a command");
    };
    assert_eq!(model, DEFAULT_GEMINI_MODEL);
    assert!(prompt.ends_with("Session: issue-24\n\ncontent"));
    let summary = gemini_summary("content", true, "exit status: 0", " all good \n", "").unwrap();
    assert_eq!(summary.summary, "all good");
    assert_eq!(summary.backend, "gemini-cli");
    assert!(gemini_summary("content", false, "exit status: 1", "", "no key").is_err());
}

#[test]
fn summary_becomes_an_event() {
    let summary = gemini_summary("content", true, "exit status: 0", "all good", "").unwrap();
    let event = tmux_content_changed_event(
        &RegisteredTmuxSession::default(),
        "issue-24".into(),
        "0.0".into(),
        summary,
    );
    assert_eq!(event.kind, "tmux.content_changed");
    assert_eq!(event.payload.raw_field("summary"), Some("all good"));
}
