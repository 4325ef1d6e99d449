use crate::provider::Backend;
use crate::provider::Capability;
use vstd::prelude::*;
use vstd::string::StringExecFns;

verus! {

/// A parameter of a configured backend.
#[derive(Clone, Copy, Debug, PartialEq, Eq, Structural)]
pub enum Parameter {
    ApiKey,
    PromptModel,
    EmbeddingModel,
}

/// Why a configuration cannot be turned into providers. Each variant is a
/// fault of the configuration itself, found before any provider is called.
#[derive(Clone, Copy, Debug, PartialEq, Eq, Structural)]
pub enum ConfigurationError {
    /// A selector names a provider that the configuration does not declare.
    UnknownProvider,
    /// The provider's backend tag is none that this build recognizes.
    UnknownBackend,
    /// The backend is recognized but was left out of this build.
    BackendUnavailable(Backend),
    /// The backend cannot serve the capability asked of it.
    CapabilityUnsupported(Backend, Capability),
    /// A parameter that the backend needs is absent or empty.
    MissingParameter(Parameter),
    /// Queries would be embedded by another model than the index was.
    EmbeddingMismatch,
}

impl ConfigurationError {
    /// The sentence that tells a user of the fault.
    pub open spec fn reason(self) -> Seq<char> {
        match self {
            ConfigurationError::UnknownProvider => "a selector names a provider that is not configured"@,
            ConfigurationError::UnknownBackend => "the backend of a provider is not recognized"@,
            ConfigurationError::BackendUnavailable(_) => "the backend of a provider is not part of this build"@,
            ConfigurationError::CapabilityUnsupported(_, _) => "the backend of a provider cannot do what is asked of it"@,
            ConfigurationError::MissingParameter(_) => "a provider lacks a required parameter"@,
            ConfigurationError::EmbeddingMismatch => "queries and index use different embedding models"@,
        }
    }

    /// Writes the sentence that tells a user of the fault.
    pub fn describe(&self) -> (text: String)
        ensures
            text@ == self.reason(),
    {
        match self {
            ConfigurationError::UnknownProvider => String::from_str(
                "a selector names a provider that is not configured",
            ),
            ConfigurationError::UnknownBackend => String::from_str(
                "the backend of a provider is not recognized",
            ),
            ConfigurationError::BackendUnavailable(_) => String::from_str(
                "the backend of a provider is not part of this build",
            ),
            ConfigurationError::CapabilityUnsupported(_, _) => String::from_str(
                "the backend of a provider cannot do what is asked of it",
            ),
            ConfigurationError::MissingParameter(_) => String::from_str(
                "a provider lacks a required parameter",
            ),
            ConfigurationError::EmbeddingMismatch => String::from_str(
                "queries and index use different embedding models",
            ),
        }
    }
}

/// Why a pipeline run ended early.
#[derive(Clone, Debug, PartialEq, Eq)]
pub enum PipelineError {
    /// The configuration cannot be turned into the providers the run needs.
    Configuration(ConfigurationError),
    /// A model backend failed: network, authentication, rate limit.
    Provider(String),
    /// The vector store failed to read or write.
    Storage(String),
    /// The project's files could not be enumerated or read.
    Io(String),
}

/// The mathematical content of a [`PipelineError`].
pub enum PipelineErrorView {
    Configuration(ConfigurationError),
    Provider(Seq<char>),
    Storage(Seq<char>),
    Io(Seq<char>),
}

impl View for PipelineError {
    type V = PipelineErrorView;

    open spec fn view(&self) -> PipelineErrorView {
        match self {
            PipelineError::Configuration(error) => PipelineErrorView::Configuration(*error),
            PipelineError::Provider(detail) => PipelineErrorView::Provider(detail@),
            PipelineError::Storage(detail) => PipelineErrorView::Storage(detail@),
            PipelineError::Io(detail) => PipelineErrorView::Io(detail@),
        }
    }
}

impl PipelineErrorView {
    /// The text under which the error is shown: its kind, then its detail.
    pub open spec fn message(self) -> Seq<char> {
        match self {
            PipelineErrorView::Configuration(error) => "configuration error: "@ + error.reason(),
            PipelineErrorView::Provider(detail) => "provider error: "@ + detail,
            PipelineErrorView::Storage(detail) => "storage error: "@ + detail,
            PipelineErrorView::Io(detail) => "i/o error: "@ + detail,
        }
    }

    /// Whether the program must not go on. Only a configuration that cannot
    /// be resolved is fatal; every other error ends one run.
    pub open spec fn fatal_at_startup(self) -> bool {
        self is Configuration
    }
}

impl PipelineError {
    /// Writes the text under which the error is shown.
    pub fn describe(&self) -> (text: String)
        ensures
            text@ == self@.message(),
    {
        match self {
            PipelineError::Configuration(error) => {
                let reason = error.describe();
                String::from_str("configuration error: ").concat(reason.as_str())
            },
            PipelineError::Provider(detail) => String::from_str("provider error: ").concat(
                detail.as_str(),
            ),
            PipelineError::Storage(detail) => String::from_str("storage error: ").concat(
                detail.as_str(),
            ),
            PipelineError::Io(detail) => String::from_str("i/o error: ").concat(detail.as_str()),
        }
    }

    /// Tells whether the program must not go on once it has found this
    /// error at its start.
    pub fn is_fatal_at_startup(&self) -> (fatal: bool)
        ensures
            fatal == self@.fatal_at_startup(),
    {
        match self {
            PipelineError::Configuration(_) => true,
            _ => false,
        }
    }
}

} // verus!
