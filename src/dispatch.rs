//! Turns a transcription or cleanup call into the HTTP request that the
//! configured provider expects.
use vstd::prelude::*;
use crate::config::{AIConfig, ConfigView};
use crate::json::{json_quoted, quote};
use crate::provider::{provider_of, transcribes, Provider};

verus! {

/// The instruction given to every formatting provider: clean speech-to-text
/// output into concise Chinese prose without adding content.
pub const CLEANUP_INSTRUCTION: &'static str = "你是专业的中文文本清理工具。请将语音转写的文本进行清理：1）如果输入是英文但内容是中文意思，请直接翻译成对应的中文；2）删除语气词（嗯、啊、那个等）；3）去除重复词语；4）修正语法错误；5）保持原意不变，不要添加任何新内容；6）输出简洁的中文文本，不要使用Markdown格式。特别注意：如果输入的英文明显是中文语音的错误识别结果，请直接转换为正确的中文表达。";

/// The multipart part that carries the audio, its file name and MIME type.
pub const AUDIO_PART: &'static str = "file";
pub const AUDIO_FILE_NAME: &'static str = "audio.wav";
pub const AUDIO_MIME: &'static str = "audio/wav";

/// Failures of a transcription or formatting call.
#[derive(Debug, Clone, PartialEq, Eq)]
pub enum DispatchError {
    /// The provider identifier names no provider that offers the operation.
    UnsupportedProvider(String),
    /// The provider answered with a non-success status; the body it sent.
    ProviderError(String),
    /// A success reply without the expected text field.
    MalformedResponse,
    /// The request could not be sent, or the reply could not be read.
    TransportError(String),
}

/// `DispatchError` over plain character sequences.
pub enum Failure {
    UnsupportedProvider(Seq<char>),
    ProviderError(Seq<char>),
    MalformedResponse,
    TransportError(Seq<char>),
}

impl View for DispatchError {
    type V = Failure;

    open spec fn view(&self) -> Failure {
        match self {
            DispatchError::UnsupportedProvider(s) => Failure::UnsupportedProvider(s@),
            DispatchError::ProviderError(s) => Failure::ProviderError(s@),
            DispatchError::MalformedResponse => Failure::MalformedResponse,
            DispatchError::TransportError(s) => Failure::TransportError(s@),
        }
    }
}

/// Name/value pairs (headers, form fields) as character sequences.
pub open spec fn pairs_view(v: Seq<(String, String)>) -> Seq<(Seq<char>, Seq<char>)> {
    v.map_values(|p: (String, String)| (p.0@, p.1@))
}

/// A multipart transcription request; the audio travels in the part named
/// `AUDIO_PART`, as `AUDIO_FILE_NAME` of type `AUDIO_MIME`.
#[derive(Debug, Clone)]
pub struct TranscriptionRequest {
    pub url: String,
    pub headers: Vec<(String, String)>,
    pub fields: Vec<(String, String)>,
}

pub struct TranscriptionPlan {
    pub url: Seq<char>,
    pub headers: Seq<(Seq<char>, Seq<char>)>,
    pub fields: Seq<(Seq<char>, Seq<char>)>,
}

impl View for TranscriptionRequest {
    type V = TranscriptionPlan;

    open spec fn view(&self) -> TranscriptionPlan {
        TranscriptionPlan {
            url: self.url@,
            headers: pairs_view(self.headers@),
            fields: pairs_view(self.fields@),
        }
    }
}

/// A JSON chat-completion request.
#[derive(Debug, Clone)]
pub struct ChatRequest {
    pub url: String,
    pub headers: Vec<(String, String)>,
    pub body: String,
}

pub struct ChatPlan {
    pub url: Seq<char>,
    pub headers: Seq<(Seq<char>, Seq<char>)>,
    pub body: Seq<char>,
}

impl View for ChatRequest {
    type V = ChatPlan;

    open spec fn view(&self) -> ChatPlan {
        ChatPlan { url: self.url@, headers: pairs_view(self.headers@), body: self.body@ }
    }
}

pub open spec fn or_default(o: Option<Seq<char>>, d: Seq<char>) -> Seq<char> {
    match o {
        Some(s) => s,
        None => d,
    }
}

/// The credential headers: a bearer token for the OpenAI-compatible
/// services, `api-key` for Azure, `x-api-key` with an API version for
/// Anthropic, none for a local Ollama.
pub open spec fn auth_headers(p: Provider, key: Seq<char>) -> Seq<(Seq<char>, Seq<char>)> {
    match p {
        Provider::Azure => seq![("api-key"@, key)],
        Provider::Anthropic => seq![("x-api-key"@, key), ("anthropic-version"@, "2023-06-01"@)],
        Provider::Ollama => seq![],
        _ => seq![("Authorization"@, "Bearer "@ + key)],
    }
}

pub open spec fn transcription_url(p: Provider, c: ConfigView) -> Seq<char> {
    match p {
        Provider::Azure => c.base_url + "/openai/deployments/"@ + or_default(
            c.whisper_deployment,
            "whisper"@,
        ) + "/audio/transcriptions?api-version="@ + or_default(c.api_version, "2024-02-01"@),
        Provider::Ollama => c.base_url + "/v1/audio/transcriptions"@,
        _ => c.base_url + "/audio/transcriptions"@,
    }
}

/// The text fields of the form: the model (not for Azure, whose deployment
/// fixes it), the language hint and the JSON response format.
pub open spec fn transcription_fields(p: Provider, c: ConfigView) -> Seq<(Seq<char>, Seq<char>)> {
    let tail = seq![("language"@, "zh"@), ("response_format"@, "json"@)];
    if p == Provider::Azure {
        tail
    } else {
        seq![("model"@, c.whisper_model)] + tail
    }
}

pub open spec fn transcription_plan(p: Provider, c: ConfigView) -> TranscriptionPlan {
    TranscriptionPlan {
        url: transcription_url(p, c),
        headers: auth_headers(p, c.api_key),
        fields: transcription_fields(p, c),
    }
}

pub open spec fn format_url(p: Provider, c: ConfigView) -> Seq<char> {
    match p {
        Provider::Azure => c.base_url + "/openai/deployments/"@ + or_default(c.gpt_deployment, "gpt-4"@)
            + "/chat/completions?api-version="@ + or_default(c.api_version, "2024-02-01"@),
        Provider::Anthropic => c.base_url + "/v1/messages"@,
        Provider::Ollama => c.base_url + "/v1/chat/completions"@,
        _ => c.base_url + "/chat/completions"@,
    }
}

pub open spec fn format_headers(p: Provider, key: Seq<char>) -> Seq<(Seq<char>, Seq<char>)> {
    auth_headers(p, key) + seq![("Content-Type"@, "application/json"@)]
}

/// The system instruction and the user's text as a chat message array.
pub open spec fn chat_messages(text: Seq<char>) -> Seq<char> {
    "[{\"role\":\"system\",\"content\":"@ + json_quoted(CLEANUP_INSTRUCTION@)
        + "},{\"role\":\"user\",\"content\":"@ + json_quoted(text) + "}]"@
}

/// The JSON body of a cleanup request. Azure names no model (the deployment
/// fixes it); Anthropic carries the instruction in `system` and caps the
/// reply length; Ollama asks for a reply without streaming; the others set a
/// low temperature.
pub open spec fn format_body(p: Provider, c: ConfigView, text: Seq<char>) -> Seq<char> {
    match p {
        Provider::Azure => "{\"messages\":"@ + chat_messages(text) + ",\"temperature\":0.3}"@,
        Provider::Anthropic => "{\"model\":"@ + json_quoted(c.gpt_model)
            + ",\"max_tokens\":1024,\"system\":"@ + json_quoted(CLEANUP_INSTRUCTION@)
            + ",\"messages\":[{\"role\":\"user\",\"content\":"@ + json_quoted(text) + "}]}"@,
        Provider::Ollama => "{\"model\":"@ + json_quoted(c.gpt_model) + ",\"messages\":"@
            + chat_messages(text) + ",\"stream\":false}"@,
        _ => "{\"model\":"@ + json_quoted(c.gpt_model) + ",\"messages\":"@ + chat_messages(text)
            + ",\"temperature\":0.3}"@,
    }
}

pub open spec fn format_plan(p: Provider, c: ConfigView, text: Seq<char>) -> ChatPlan {
    ChatPlan { url: format_url(p, c), headers: format_headers(p, c.api_key), body: format_body(p, c, text) }
}

fn text_or(o: &Option<String>, d: &str) -> (r: String)
    ensures
        r@ == or_default(crate::config::opt_view(*o), d@),
{
    match o {
        Some(s) => s.clone(),
        None => String::from_str(d),
    }
}

fn pair(a: &str, b: String) -> (r: (String, String))
    ensures
        r.0@ == a@,
        r.1@ == b@,
{
    (String::from_str(a), b)
}

fn auth_headers_for(p: Provider, key: &String) -> (r: Vec<(String, String)>)
    ensures
        pairs_view(r@) == auth_headers(p, key@),
{
    let mut v: Vec<(String, String)> = Vec::new();
    match p {
        Provider::Azure => {
            v.push(pair("api-key", key.clone()));
        },
        Provider::Anthropic => {
            v.push(pair("x-api-key", key.clone()));
            v.push(pair("anthropic-version", String::from_str("2023-06-01")));
        },
        Provider::Ollama => {},
        _ => {
            let mut bearer = String::from_str("Bearer ");
            bearer.append(key.as_str());
            v.push(pair("Authorization", bearer));
        },
    }
    assert(pairs_view(v@) =~= auth_headers(p, key@));
    v
}

fn transcription_url_for(p: Provider, c: &AIConfig) -> (r: String)
    ensures
        r@ == transcription_url(p, c@),
{
    let mut url = c.base_url.clone();
    match p {
        Provider::Azure => {
            url.append("/openai/deployments/");
            let deployment = text_or(&c.whisper_deployment, "whisper");
            url.append(deployment.as_str());
            url.append("/audio/transcriptions?api-version=");
            let version = text_or(&c.api_version, "2024-02-01");
            url.append(version.as_str());
        },
        Provider::Ollama => {
            url.append("/v1/audio/transcriptions");
        },
        _ => {
            url.append("/audio/transcriptions");
        },
    }
    url
}

/// The request that transcribes audio with the configured provider, built
/// before any network traffic. An identifier that names no transcription
/// provider gives `UnsupportedProvider` with that identifier.
pub fn transcription_request(c: &AIConfig) -> (r: Result<TranscriptionRequest, DispatchError>)
    ensures
        match provider_of(c@.provider) {
            Some(p) if transcribes(p) => r is Ok && r->Ok_0@ == transcription_plan(p, c@),
            _ => r is Err && r->Err_0@ == Failure::UnsupportedProvider(c@.provider),
        },
{
    let p = match Provider::from_id(&c.provider) {
        Some(p) if !matches!(p, Provider::Anthropic) => p,
        _ => {
            return Err(DispatchError::UnsupportedProvider(c.provider.clone()));
        },
    };
    let url = transcription_url_for(p, c);
    let headers = auth_headers_for(p, &c.api_key);
    let mut fields: Vec<(String, String)> = Vec::new();
    if !matches!(p, Provider::Azure) {
        fields.push(pair("model", c.whisper_model.clone()));
    }
    fields.push(pair("language", String::from_str("zh")));
    fields.push(pair("response_format", String::from_str("json")));
    let r = TranscriptionRequest { url, headers, fields };
    assert(r@.fields =~= transcription_fields(p, c@));
    Ok(r)
}

fn format_url_for(p: Provider, c: &AIConfig) -> (r: String)
    ensures
        r@ == format_url(p, c@),
{
    let mut url = c.base_url.clone();
    match p {
        Provider::Azure => {
            url.append("/openai/deployments/");
            let deployment = text_or(&c.gpt_deployment, "gpt-4");
            url.append(deployment.as_str());
            url.append("/chat/completions?api-version=");
            let version = text_or(&c.api_version, "2024-02-01");
            url.append(version.as_str());
        },
        Provider::Anthropic => {
            url.append("/v1/messages");
        },
        Provider::Ollama => {
            url.append("/v1/chat/completions");
        },
        _ => {
            url.append("/chat/completions");
        },
    }
    url
}

fn chat_messages_for(text: &str) -> (r: String)
    ensures
        r@ == chat_messages(text@),
{
    let mut m = String::from_str("[{\"role\":\"system\",\"content\":");
    let instruction = quote(CLEANUP_INSTRUCTION);
    m.append(instruction.as_str());
    m.append("},{\"role\":\"user\",\"content\":");
    let quoted = quote(text);
    m.append(quoted.as_str());
    m.append("}]");
    m
}

fn format_body_for(p: Provider, c: &AIConfig, text: &str) -> (r: String)
    ensures
        r@ == format_body(p, c@, text@),
{
    match p {
        Provider::Azure => {
            let mut b = String::from_str("{\"messages\":");
            let m = chat_messages_for(text);
            b.append(m.as_str());
            b.append(",\"temperature\":0.3}");
            b
        },
        Provider::Anthropic => {
            let mut b = String::from_str("{\"model\":");
            let model = quote(c.gpt_model.as_str());
            b.append(model.as_str());
            b.append(",\"max_tokens\":1024,\"system\":");
            let instruction = quote(CLEANUP_INSTRUCTION);
            b.append(instruction.as_str());
            b.append(",\"messages\":[{\"role\":\"user\",\"content\":");
            let quoted = quote(text);
            b.append(quoted.as_str());
            b.append("}]}");
            b
        },
        _ => {
            let mut b = String::from_str("{\"model\":");
            let model = quote(c.gpt_model.as_str());
            b.append(model.as_str());
            b.append(",\"messages\":");
            let m = chat_messages_for(text);
            b.append(m.as_str());
            if matches!(p, Provider::Ollama) {
                b.append(",\"stream\":false}");
            } else {
                b.append(",\"temperature\":0.3}");
            }
            b
        },
    }
}

/// The request that has the configured provider clean up `text`, built
/// before any network traffic. An identifier that names no provider gives
/// `UnsupportedProvider` with that identifier.
pub fn format_request(text: &str, c: &AIConfig) -> (r: Result<ChatRequest, DispatchError>)
    ensures
        match provider_of(c@.provider) {
            Some(p) => r is Ok && r->Ok_0@ == format_plan(p, c@, text@),
            None => r is Err && r->Err_0@ == Failure::UnsupportedProvider(c@.provider),
        },
{
    let p = match Provider::from_id(&c.provider) {
        Some(p) => p,
        None => {
            return Err(DispatchError::UnsupportedProvider(c.provider.clone()));
        },
    };
    let url = format_url_for(p, c);
    let mut headers = auth_headers_for(p, &c.api_key);
    headers.push(pair("Content-Type", String::from_str("application/json")));
    let body = format_body_for(p, c, text);
    let r = ChatRequest { url, headers, body };
    assert(r@.headers =~= format_headers(p, c@.api_key));
    Ok(r)
}

} // verus!
