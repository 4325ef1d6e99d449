use kwaak::error::{ConfigurationError, Parameter, PipelineError};
use kwaak::provider::{Backend, Capability};

#[test]
fn configuration_errors_describe_themselves() {
    assert_eq!(
        ConfigurationError::UnknownProvider.describe(),
        "a selector names a provider that is not configured"
    );
    assert_eq!(
        ConfigurationError::UnknownBackend.describe(),
        "the backend of a provider is not recognized"
    );
    assert_eq!(
        ConfigurationError::BackendUnavailable(Backend::FastEmbed).describe(),
        "the backend of a provider is not part of this build"
    );
    assert_eq!(
        ConfigurationError::CapabilityUnsupported(Backend::FastEmbed, Capability::PromptCompletion)
            .describe(),
        "the backend of a provider cannot do what is asked of it"
    );
    assert_eq!(
        ConfigurationError::MissingParameter(Parameter::ApiKey).describe(),
        "a provider lacks a required parameter"
    );
    assert_eq!(
        ConfigurationError::EmbeddingMismatch.describe(),
        "queries and index use different embedding models"
    );
}

#[test]
fn pipeline_errors_are_shown_with_their_kind() {
    assert_eq!(
        PipelineError::Provider("rate limited".to_string()).describe(),
        "provider error: rate limited"
    );
    assert_eq!(
        PipelineError::Storage("disk full".to_string()).describe(),
        "storage error: disk full"
    );
    assert_eq!(PipelineError::Io("root is gone".to_string()).describe(), "i/o error: root is gone");
    assert_eq!(PipelineError::Io(String::new()).describe(), "i/o error: ");
    assert_eq!(
        PipelineError::Configuration(ConfigurationError::UnknownProvider).describe(),
        "configuration error: a selector names a provider that is not configured"
    );
}

#[test]
fn only_configuration_errors_are_fatal_at_startup() {
    assert!(PipelineError::Configuration(ConfigurationError::UnknownBackend).is_fatal_at_startup());
    assert!(!PipelineError::Provider("x".to_string()).is_fatal_at_startup());
    assert!(!PipelineError::Storage("x".to_string()).is_fatal_at_startup());
    assert!(!PipelineError::Io("x".to_string()).is_fatal_at_startup());
}
