//! The closed set of providers, selected by identifier.
use vstd::prelude::*;

verus! {

/// A remote (or local) AI service.
#[derive(Debug, Clone, Copy, PartialEq, Eq, Structural)]
pub enum Provider {
    OpenAi,
    DeepSeek,
    Zhipu,
    Moonshot,
    Azure,
    Anthropic,
    Ollama,
}

/// The provider an identifier names, if any.
pub open spec fn provider_of(id: Seq<char>) -> Option<Provider> {
    if id == "openai"@ {
        Some(Provider::OpenAi)
    } else if id == "deepseek"@ {
        Some(Provider::DeepSeek)
    } else if id == "zhipu"@ {
        Some(Provider::Zhipu)
    } else if id == "moonshot"@ {
        Some(Provider::Moonshot)
    } else if id == "azure"@ {
        Some(Provider::Azure)
    } else if id == "anthropic"@ {
        Some(Provider::Anthropic)
    } else if id == "ollama"@ {
        Some(Provider::Ollama)
    } else {
        None
    }
}

/// Whether the provider offers speech-to-text here (all but Anthropic).
pub open spec fn transcribes(p: Provider) -> bool {
    p != Provider::Anthropic
}

fn same_text(s: &String, lit: &str) -> (r: bool)
    ensures
        r == (s@ == lit@),
{
    *s == String::from_str(lit)
}

impl Provider {
    /// Selects the provider by its identifier.
    pub fn from_id(id: &String) -> (r: Option<Provider>)
        ensures
            r == provider_of(id@),
    {
        if same_text(id, "openai") {
            Some(Provider::OpenAi)
        } else if same_text(id, "deepseek") {
            Some(Provider::DeepSeek)
        } else if same_text(id, "zhipu") {
            Some(Provider::Zhipu)
        } else if same_text(id, "moonshot") {
            Some(Provider::Moonshot)
        } else if same_text(id, "azure") {
            Some(Provider::Azure)
        } else if same_text(id, "anthropic") {
            Some(Provider::Anthropic)
        } else if same_text(id, "ollama") {
            Some(Provider::Ollama)
        } else {
            None
        }
    }
}

} // verus!
