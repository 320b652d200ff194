//! Generation parameters, chat messages and the failure taxonomy.

use atlas_agents::llm::{ChatMessage, GenerationConfig, LlmError, ProviderType};

#[test]
fn generation_parameters() {
    let c = GenerationConfig::of(2048, 50);
    assert_eq!(c.max_tokens, Some(2048));
    assert_eq!(c.temperature_hundredths, Some(50));
    assert!(c.stop_sequences.is_none());
    let d = GenerationConfig::default();
    assert_eq!(d.max_tokens, Some(8192));
    assert_eq!(d.temperature_hundredths, Some(70));
}

#[test]
fn chat_message_roles() {
    assert_eq!(ChatMessage::system("be terse").role, "system");
    assert_eq!(ChatMessage::user("hello").content, "hello");
    assert_eq!(ChatMessage::assistant("hi").role, "assistant");
}

#[test]
fn every_failure_renders_a_message() {
    assert_eq!(
        LlmError::ConnectionFailed("refused".to_string()).message(),
        "Connection failed: refused",
    );
    assert_eq!(
        LlmError::RequestFailed("status 500".to_string()).message(),
        "Request failed: status 500",
    );
    assert_eq!(LlmError::ParseError("bad json".to_string()).message(), "Parse error: bad json");
    assert_eq!(LlmError::Timeout.message(), "Request timed out");
    assert_eq!(LlmError::RateLimited.message(), "Rate limited");
    assert_eq!(
        LlmError::NotConfigured("no endpoint".to_string()).message(),
        "Not configured: no endpoint",
    );
    assert_eq!(ProviderType::default(), ProviderType::LlamaCpp);
}
