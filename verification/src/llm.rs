//! Types shared with the text-generation collaborator: generation
//! parameters, chat messages, the provider roster, and the failure
//! taxonomy.  Temperatures are held in hundredths, since the pipeline
//! only ever passes them through.

use vstd::prelude::*;

verus! {

/// Parameters of one generation call; `temperature_hundredths` holds
/// the sampling temperature scaled by one hundred.
#[derive(Clone, Debug)]
pub struct GenerationConfig {
    pub max_tokens: Option<u32>,
    pub temperature_hundredths: Option<u32>,
    pub stop_sequences: Option<Vec<String>>,
}

impl GenerationConfig {
    /// The parameters of a given pass.
    pub fn of(max_tokens: u32, temperature_hundredths: u32) -> (r: GenerationConfig)
        ensures
            r.max_tokens == Some(max_tokens),
            r.temperature_hundredths == Some(temperature_hundredths),
            r.stop_sequences is None,
    {
        GenerationConfig {
            max_tokens: Some(max_tokens),
            temperature_hundredths: Some(temperature_hundredths),
            stop_sequences: None,
        }
    }
}

impl Default for GenerationConfig {
    /// The default generation parameters.
    fn default() -> (r: GenerationConfig)
        ensures
            r.max_tokens == Some(8192u32),
            r.temperature_hundredths == Some(70u32),
            r.stop_sequences is None,
    {
        GenerationConfig {
            max_tokens: Some(8192),
            temperature_hundredths: Some(70),
            stop_sequences: None,
        }
    }
}

/// How a generation call can fail.
#[derive(Clone, Debug)]
pub enum LlmError {
    ConnectionFailed(String),
    RequestFailed(String),
    ParseError(String),
    Timeout,
    RateLimited,
    NotConfigured(String),
}

/// The failure text of an error value.
pub open spec fn spec_llm_error_message(e: LlmError) -> Seq<char> {
    match e {
        LlmError::ConnectionFailed(m) => "Connection failed: "@ + m@,
        LlmError::RequestFailed(m) => "Request failed: "@ + m@,
        LlmError::ParseError(m) => "Parse error: "@ + m@,
        LlmError::Timeout => "Request timed out"@,
        LlmError::RateLimited => "Rate limited"@,
        LlmError::NotConfigured(m) => "Not configured: "@ + m@,
    }
}

impl LlmError {
    /// Render the failure as one line of text.
    pub fn message(&self) -> (r: String)
        ensures
            r@ == spec_llm_error_message(*self),
    {
        match self {
            LlmError::ConnectionFailed(m) => {
                let mut s = String::from_str("Connection failed: ");
                s.append(m.as_str());
                s
            },
            LlmError::RequestFailed(m) => {
                let mut s = String::from_str("Request failed: ");
                s.append(m.as_str());
                s
            },
            LlmError::ParseError(m) => {
                let mut s = String::from_str("Parse error: ");
                s.append(m.as_str());
                s
            },
            LlmError::Timeout => String::from_str("Request timed out"),
            LlmError::RateLimited => String::from_str("Rate limited"),
            LlmError::NotConfigured(m) => {
                let mut s = String::from_str("Not configured: ");
                s.append(m.as_str());
                s
            },
        }
    }
}

/// The available text-generation backends.
#[derive(Clone, Copy, Debug, PartialEq, Eq, Structural)]
pub enum ProviderType {
    LlamaCpp,
}

impl Default for ProviderType {
    /// The backend used when none is named.
    fn default() -> (r: ProviderType)
        ensures
            r == ProviderType::LlamaCpp,
    {
        ProviderType::LlamaCpp
    }
}

/// One message of a chat-style exchange.
#[derive(Clone, Debug)]
pub struct ChatMessage {
    pub role: String,
    pub content: String,
}

impl ChatMessage {
    /// A message carrying the system instruction.
    pub fn system(content: &str) -> (r: ChatMessage)
        ensures
            r.role@ == "system"@,
            r.content@ == content@,
    {
        ChatMessage { role: String::from_str("system"), content: String::from_str(content) }
    }

    /// A message carrying the user prompt.
    pub fn user(content: &str) -> (r: ChatMessage)
        ensures
            r.role@ == "user"@,
            r.content@ == content@,
    {
        ChatMessage { role: String::from_str("user"), content: String::from_str(content) }
    }

    /// A message carrying a prior model answer.
    pub fn assistant(content: &str) -> (r: ChatMessage)
        ensures
            r.role@ == "assistant"@,
            r.content@ == content@,
    {
        ChatMessage { role: String::from_str("assistant"), content: String::from_str(content) }
    }
}

} // verus!
