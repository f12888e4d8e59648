use dictation::config::AIConfig;
use dictation::dispatch::{format_request, transcription_request, DispatchError, CLEANUP_INSTRUCTION};
use dictation::provider::Provider;

fn config(provider: &str) -> AIConfig {
    AIConfig {
        provider: provider.to_string(),
        api_key: "k-1".to_string(),
        base_url: "https://x.example".to_string(),
        whisper_model: "whisper-1".to_string(),
        gpt_model: "gpt-4o-mini".to_string(),
        api_version: None,
        whisper_deployment: None,
        gpt_deployment: None,
    }
}

fn pairs(v: &[(&str, &str)]) -> Vec<(String, String)> {
    v.iter().map(|(a, b)| (a.to_string(), b.to_string())).collect()
}

fn body_json(body: &str) -> serde_json::Value {
    serde_json::from_str(body).unwrap()
}

#[test]
fn default_config_is_openai() {
    let c = AIConfig::default();
    assert_eq!(c.provider, "openai");
    assert_eq!(c.api_key, "");
    assert_eq!(c.base_url, "https://api.openai.com/v1");
    assert_eq!(c.whisper_model, "whisper-1");
    assert_eq!(c.gpt_model, "gpt-4o-mini");
    assert!(c.api_version.is_none() && c.whisper_deployment.is_none() && c.gpt_deployment.is_none());
}

#[test]
fn provider_ids() {
    assert_eq!(Provider::from_id(&"openai".to_string()), Some(Provider::OpenAi));
    assert_eq!(Provider::from_id(&"deepseek".to_string()), Some(Provider::DeepSeek));
    assert_eq!(Provider::from_id(&"zhipu".to_string()), Some(Provider::Zhipu));
    assert_eq!(Provider::from_id(&"moonshot".to_string()), Some(Provider::Moonshot));
    assert_eq!(Provider::from_id(&"azure".to_string()), Some(Provider::Azure));
    assert_eq!(Provider::from_id(&"anthropic".to_string()), Some(Provider::Anthropic));
    assert_eq!(Provider::from_id(&"ollama".to_string()), Some(Provider::Ollama));
    assert_eq!(Provider::from_id(&"OpenAI".to_string()), None);
    assert_eq!(Provider::from_id(&"".to_string()), None);
}

#[test]
fn openai_compatible_transcription_requests() {
    for id in ["openai", "deepseek", "zhipu", "moonshot"] {
        let r = transcription_request(&config(id)).unwrap();
        assert_eq!(r.url, "https://x.example/audio/transcriptions");
        assert_eq!(r.headers, pairs(&[("Authorization", "Bearer k-1")]));
        assert_eq!(
            r.fields,
            pairs(&[("model", "whisper-1"), ("language", "zh"), ("response_format", "json")])
        );
    }
}

#[test]
fn azure_transcription_uses_default_deployment_and_version() {
    let r = transcription_request(&config("azure")).unwrap();
    assert_eq!(
        r.url,
        "https://x.example/openai/deployments/whisper/audio/transcriptions?api-version=2024-02-01"
    );
    assert_eq!(r.headers, pairs(&[("api-key", "k-1")]));
    assert_eq!(r.fields, pairs(&[("language", "zh"), ("response_format", "json")]));
}

#[test]
fn azure_transcription_uses_given_deployment_and_version() {
    let mut c = config("azure");
    c.whisper_deployment = Some("w2".to_string());
    c.api_version = Some("2025-01-01".to_string());
    let r = transcription_request(&c).unwrap();
    assert_eq!(
        r.url,
        "https://x.example/openai/deployments/w2/audio/transcriptions?api-version=2025-01-01"
    );
}

#[test]
fn ollama_transcription_has_no_credentials() {
    let r = transcription_request(&config("ollama")).unwrap();
    assert_eq!(r.url, "https://x.example/v1/audio/transcriptions");
    assert!(r.headers.is_empty());
    assert_eq!(
        r.fields,
        pairs(&[("model", "whisper-1"), ("language", "zh"), ("response_format", "json")])
    );
}

#[test]
fn unknown_provider_is_unsupported() {
    let e = transcription_request(&config("acme")).unwrap_err();
    assert_eq!(e, DispatchError::UnsupportedProvider("acme".to_string()));
    let e = format_request("hi", &config("acme")).unwrap_err();
    assert_eq!(e, DispatchError::UnsupportedProvider("acme".to_string()));
}

#[test]
fn anthropic_does_not_transcribe() {
    let e = transcription_request(&config("anthropic")).unwrap_err();
    assert_eq!(e, DispatchError::UnsupportedProvider("anthropic".to_string()));
}

#[test]
fn openai_compatible_format_requests() {
    for id in ["openai", "deepseek", "zhipu", "moonshot"] {
        let r = format_request("嗯 你好", &config(id)).unwrap();
        assert_eq!(r.url, "https://x.example/chat/completions");
        assert_eq!(
            r.headers,
            pairs(&[("Authorization", "Bearer k-1"), ("Content-Type", "application/json")])
        );
        let v = body_json(&r.body);
        assert_eq!(v["model"], "gpt-4o-mini");
        assert_eq!(v["temperature"].as_f64(), Some(0.3));
        assert_eq!(v["messages"][0]["role"], "system");
        assert_eq!(v["messages"][0]["content"], CLEANUP_INSTRUCTION);
        assert_eq!(v["messages"][1]["role"], "user");
        assert_eq!(v["messages"][1]["content"], "嗯 你好");
        assert_eq!(v["messages"].as_array().unwrap().len(), 2);
    }
}

#[test]
fn azure_format_request() {
    let r = format_request("text", &config("azure")).unwrap();
    assert_eq!(
        r.url,
        "https://x.example/openai/deployments/gpt-4/chat/completions?api-version=2024-02-01"
    );
    assert_eq!(r.headers, pairs(&[("api-key", "k-1"), ("Content-Type", "application/json")]));
    let v = body_json(&r.body);
    assert!(v.get("model").is_none());
    assert_eq!(v["temperature"].as_f64(), Some(0.3));
    assert_eq!(v["messages"][1]["content"], "text");
}

#[test]
fn azure_format_request_with_deployment() {
    let mut c = config("azure");
    c.gpt_deployment = Some("g4o".to_string());
    c.api_version = Some("2024-06-01".to_string());
    let r = format_request("text", &c).unwrap();
    assert_eq!(
        r.url,
        "https://x.example/openai/deployments/g4o/chat/completions?api-version=2024-06-01"
    );
}

#[test]
fn anthropic_format_request() {
    let r = format_request("text", &config("anthropic")).unwrap();
    assert_eq!(r.url, "https://x.example/v1/messages");
    assert_eq!(
        r.headers,
        pairs(&[
            ("x-api-key", "k-1"),
            ("anthropic-version", "2023-06-01"),
            ("Content-Type", "application/json")
        ])
    );
    let v = body_json(&r.body);
    assert_eq!(v["model"], "gpt-4o-mini");
    assert_eq!(v["max_tokens"], 1024);
    assert_eq!(v["system"], CLEANUP_INSTRUCTION);
    assert_eq!(v["messages"][0]["role"], "user");
    assert_eq!(v["messages"][0]["content"], "text");
    assert_eq!(v["messages"].as_array().unwrap().len(), 1);
}

#[test]
fn ollama_format_request() {
    let r = format_request("text", &config("ollama")).unwrap();
    assert_eq!(r.url, "https://x.example/v1/chat/completions");
    assert_eq!(r.headers, pairs(&[("Content-Type", "application/json")]));
    let v = body_json(&r.body);
    assert_eq!(v["stream"], false);
    assert!(v.get("temperature").is_none());
    assert_eq!(v["messages"][1]["content"], "text");
}

#[test]
fn format_body_escapes_the_text() {
    let text = "say \"hi\"\\\n\tend";
    let r = format_request(text, &config("openai")).unwrap();
    assert!(r.body.contains("\"say \\\"hi\\\"\\\\\\n\\tend\""));
    let v = body_json(&r.body);
    assert_eq!(v["messages"][1]["content"], text);
}
