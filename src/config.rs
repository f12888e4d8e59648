//! The per-call provider configuration.
use vstd::prelude::*;

verus! {

/// Credentials, endpoint and model choice for one provider, passed anew on
/// every call.
#[derive(Debug, Clone)]
pub struct AIConfig {
    pub provider: String,
    pub api_key: String,
    pub base_url: String,
    pub whisper_model: String,
    pub gpt_model: String,
    pub api_version: Option<String>,
    pub whisper_deployment: Option<String>,
    pub gpt_deployment: Option<String>,
}

/// The configuration as plain character sequences.
pub struct ConfigView {
    pub provider: Seq<char>,
    pub api_key: Seq<char>,
    pub base_url: Seq<char>,
    pub whisper_model: Seq<char>,
    pub gpt_model: Seq<char>,
    pub api_version: Option<Seq<char>>,
    pub whisper_deployment: Option<Seq<char>>,
    pub gpt_deployment: Option<Seq<char>>,
}

pub open spec fn opt_view(o: Option<String>) -> Option<Seq<char>> {
    match o {
        Some(s) => Some(s@),
        None => None,
    }
}

impl View for AIConfig {
    type V = ConfigView;

    open spec fn view(&self) -> ConfigView {
        ConfigView {
            provider: self.provider@,
            api_key: self.api_key@,
            base_url: self.base_url@,
            whisper_model: self.whisper_model@,
            gpt_model: self.gpt_model@,
            api_version: opt_view(self.api_version),
            whisper_deployment: opt_view(self.whisper_deployment),
            gpt_deployment: opt_view(self.gpt_deployment),
        }
    }
}

impl Default for AIConfig {
    /// OpenAI's public endpoint with its default models and no key.
    fn default() -> (r: Self)
        ensures
            r@.provider == "openai"@,
            r@.api_key.len() == 0,
            r@.base_url == "https://api.openai.com/v1"@,
            r@.whisper_model == "whisper-1"@,
            r@.gpt_model == "gpt-4o-mini"@,
            r@.api_version is None,
            r@.whisper_deployment is None,
            r@.gpt_deployment is None,
    {
        AIConfig {
            provider: String::from_str("openai"),
            api_key: String::new(),
            base_url: String::from_str("https://api.openai.com/v1"),
            whisper_model: String::from_str("whisper-1"),
            gpt_model: String::from_str("gpt-4o-mini"),
            api_version: None,
            whisper_deployment: None,
            gpt_deployment: None,
        }
    }
}

} // verus!
