use crate::config::copy_parameter;
use crate::config::Config;
use crate::config::ConfigView;
use crate::config::ProviderConfig;
use crate::config::ProviderConfigView;
use crate::error::ConfigurationError;
use crate::error::Parameter;
use vstd::prelude::*;
use vstd::string::StringExecFns;

verus! {

/// What a provider can be asked to do.
#[derive(Clone, Copy, Debug, PartialEq, Eq, Structural)]
pub enum Capability {
    PromptCompletion,
    EmbeddingGeneration,
}

/// The backend kinds that a configuration can name.
#[derive(Clone, Copy, Debug, PartialEq, Eq, Structural)]
pub enum Backend {
    OpenAi,
    Ollama,
    FastEmbed,
}

impl Backend {
    /// The tag by which a configuration names this backend.
    pub open spec fn tag(self) -> Seq<char> {
        match self {
            Backend::OpenAi => "openai"@,
            Backend::Ollama => "ollama"@,
            Backend::FastEmbed => "fastembed"@,
        }
    }

    /// The backend that a tag names, if it names one. Tags are matched
    /// exactly; there is no fallback.
    pub open spec fn of_tag(tag: Seq<char>) -> Option<Backend> {
        if tag == "openai"@ {
            Some(Backend::OpenAi)
        } else if tag == "ollama"@ {
            Some(Backend::Ollama)
        } else if tag == "fastembed"@ {
            Some(Backend::FastEmbed)
        } else {
            None
        }
    }

    /// Whether the backend can serve a capability. FastEmbed computes
    /// embeddings only.
    pub open spec fn supports(self, capability: Capability) -> bool {
        self != Backend::FastEmbed || capability == Capability::EmbeddingGeneration
    }

    /// Whether calls to the backend carry an API key.
    pub open spec fn needs_api_key(self) -> bool {
        self == Backend::OpenAi
    }

    /// Reads the backend that a tag names.
    pub fn from_tag(tag: &String) -> (backend: Option<Backend>)
        ensures
            backend == Backend::of_tag(tag@),
    {
        if *tag == String::from_str("openai") {
            Some(Backend::OpenAi)
        } else if *tag == String::from_str("ollama") {
            Some(Backend::Ollama)
        } else if *tag == String::from_str("fastembed") {
            Some(Backend::FastEmbed)
        } else {
            None
        }
    }

    /// Writes the tag by which a configuration names this backend.
    pub fn tag_text(self) -> (tag: String)
        ensures
            tag@ == self.tag(),
    {
        match self {
            Backend::OpenAi => String::from_str("openai"),
            Backend::Ollama => String::from_str("ollama"),
            Backend::FastEmbed => String::from_str("fastembed"),
        }
    }

    /// Tells whether the backend can serve a capability.
    pub fn can_serve(self, capability: Capability) -> (yes: bool)
        ensures
            yes == self.supports(capability),
    {
        self != Backend::FastEmbed || capability == Capability::EmbeddingGeneration
    }

    /// Tells whether calls to the backend carry an API key.
    pub fn requires_api_key(self) -> (yes: bool)
        ensures
            yes == self.needs_api_key(),
    {
        self == Backend::OpenAi
    }
}

/// The backends that were compiled into the running program.
#[derive(Clone, Copy, Debug, PartialEq, Eq, Structural)]
pub struct Availability {
    pub open_ai: bool,
    pub ollama: bool,
    pub fast_embed: bool,
}

impl Availability {
    /// Whether a backend is part of the build.
    pub open spec fn has(self, backend: Backend) -> bool {
        match backend {
            Backend::OpenAi => self.open_ai,
            Backend::Ollama => self.ollama,
            Backend::FastEmbed => self.fast_embed,
        }
    }

    /// Tells whether a backend is part of the build.
    pub fn includes(&self, backend: Backend) -> (yes: bool)
        ensures
            yes == self.has(backend),
    {
        match backend {
            Backend::OpenAi => self.open_ai,
            Backend::Ollama => self.ollama,
            Backend::FastEmbed => self.fast_embed,
        }
    }
}

/// A resolved provider: everything needed to build a client for one
/// capability of one backend. It holds plain values only.
#[derive(Debug, PartialEq, Eq)]
pub struct ProviderHandle {
    capability: Capability,
    backend: Backend,
    model: String,
    api_key: Option<String>,
}

/// The mathematical content of a [`ProviderHandle`].
pub struct ProviderHandleView {
    pub capability: Capability,
    pub backend: Backend,
    pub model: Seq<char>,
    pub api_key: Option<Seq<char>>,
}

impl View for ProviderHandle {
    type V = ProviderHandleView;

    closed spec fn view(&self) -> ProviderHandleView {
        ProviderHandleView {
            capability: self.capability,
            backend: self.backend,
            model: self.model@,
            api_key: self.api_key.deep_view(),
        }
    }
}

impl Clone for ProviderHandle {
    fn clone(&self) -> (copy: ProviderHandle)
        ensures
            copy@ == self@,
    {
        ProviderHandle {
            capability: self.capability,
            backend: self.backend,
            model: self.model.clone(),
            api_key: copy_parameter(&self.api_key),
        }
    }
}

impl ProviderHandle {
    /// The capability that the handle was resolved for.
    pub fn capability(&self) -> (capability: Capability)
        ensures
            capability == self@.capability,
    {
        self.capability
    }

    pub fn backend(&self) -> (backend: Backend)
        ensures
            backend == self@.backend,
    {
        self.backend
    }

    /// The model that serves the capability.
    pub fn model(&self) -> (model: &String)
        ensures
            model@ == self@.model,
    {
        &self.model
    }

    /// The API key as the configuration declares it.
    pub fn api_key(&self) -> (api_key: &Option<String>)
        ensures
            api_key.deep_view() == self@.api_key,
    {
        &self.api_key
    }
}

/// Whether the provider at position `i` carries the name.
pub open spec fn named(providers: Seq<ProviderConfigView>, name: Seq<char>, i: int) -> bool {
    0 <= i < providers.len() && providers[i].name == name
}

/// Whether the configuration declares a provider of that name.
pub open spec fn configured(providers: Seq<ProviderConfigView>, name: Seq<char>) -> bool {
    exists|i: int| named(providers, name, i)
}

/// Whether position `i` is the first that carries the name.
pub open spec fn first_named(providers: Seq<ProviderConfigView>, name: Seq<char>, i: int) -> bool {
    named(providers, name, i) && forall|j: int| 0 <= j < i ==> !named(providers, name, j)
}

/// The provider that a selector refers to: the first declared under that
/// name.
pub open spec fn lookup(providers: Seq<ProviderConfigView>, name: Seq<char>) -> Option<
    ProviderConfigView,
> {
    if configured(providers, name) {
        Some(providers[choose|i: int| first_named(providers, name, i)])
    } else {
        None
    }
}

/// Whether a parameter is given and not empty.
pub open spec fn present(parameter: Option<Seq<char>>) -> bool {
    parameter matches Some(text) && text.len() > 0
}

/// The parameter that names the model for a capability.
pub open spec fn model_parameter(capability: Capability) -> Parameter {
    match capability {
        Capability::PromptCompletion => Parameter::PromptModel,
        Capability::EmbeddingGeneration => Parameter::EmbeddingModel,
    }
}

/// The model that a provider declares for a capability.
pub open spec fn declared_model(provider: ProviderConfigView, capability: Capability) -> Option<
    Seq<char>,
> {
    match capability {
        Capability::PromptCompletion => provider.prompt_model,
        Capability::EmbeddingGeneration => provider.embedding_model,
    }
}

/// What one declared provider resolves to for a capability. The checks
/// run in a fixed order, and the first that fails names the error.
pub open spec fn resolve_declared(
    provider: ProviderConfigView,
    build: Availability,
    capability: Capability,
) -> Result<ProviderHandleView, ConfigurationError> {
    match Backend::of_tag(provider.backend) {
        None => Err(ConfigurationError::UnknownBackend),
        Some(backend) => if !build.has(backend) {
            Err(ConfigurationError::BackendUnavailable(backend))
        } else if !backend.supports(capability) {
            Err(ConfigurationError::CapabilityUnsupported(backend, capability))
        } else if backend.needs_api_key() && !present(provider.api_key) {
            Err(ConfigurationError::MissingParameter(Parameter::ApiKey))
        } else if !present(declared_model(provider, capability)) {
            Err(ConfigurationError::MissingParameter(model_parameter(capability)))
        } else {
            Ok(
                ProviderHandleView {
                    capability,
                    backend,
                    model: declared_model(provider, capability).unwrap(),
                    api_key: provider.api_key,
                },
            )
        },
    }
}

/// What a selector resolves to for a capability, as a function of the
/// configuration and the build alone.
pub open spec fn resolution(
    config: ConfigView,
    build: Availability,
    selector: Seq<char>,
    capability: Capability,
) -> Result<ProviderHandleView, ConfigurationError> {
    match lookup(config.providers, selector) {
        None => Err(ConfigurationError::UnknownProvider),
        Some(provider) => resolve_declared(provider, build, capability),
    }
}

/// The content of a resolution's outcome.
pub open spec fn outcome_view(outcome: Result<ProviderHandle, ConfigurationError>) -> Result<
    ProviderHandleView,
    ConfigurationError,
> {
    match outcome {
        Ok(handle) => Ok(handle@),
        Err(error) => Err(error),
    }
}

fn is_present(parameter: &Option<String>) -> (yes: bool)
    ensures
        yes == present(parameter.deep_view()),
{
    match parameter {
        Some(text) => !text.as_str().is_empty(),
        None => false,
    }
}

/// Finds the first declared provider of a name.
pub fn find_provider<'a>(providers: &'a Vec<ProviderConfig>, name: &String) -> (found: Option<
    &'a ProviderConfig,
>)
    ensures
        found.deep_view() == lookup(providers.deep_view(), name@),
{
    let ghost declared = providers.deep_view();
    let mut i: usize = 0;
    while i < providers.len()
        invariant
            i <= providers.len(),
            declared == providers.deep_view(),
            forall|j: int| 0 <= j < i ==> !named(declared, name@, j),
        decreases providers.len() - i,
    {
        if providers[i].name == *name {
            proof {
                law_lookup_gives_the_first(declared, name@, i as int);
            }
            return Some(&providers[i]);
        }
        i += 1;
    }
    None
}

fn parameter_of_model(capability: Capability) -> (parameter: Parameter)
    ensures
        parameter == model_parameter(capability),
{
    match capability {
        Capability::PromptCompletion => Parameter::PromptModel,
        Capability::EmbeddingGeneration => Parameter::EmbeddingModel,
    }
}

/// Resolves one declared provider for a capability.
pub fn resolve_provider(
    provider: &ProviderConfig,
    build: &Availability,
    capability: Capability,
) -> (outcome: Result<ProviderHandle, ConfigurationError>)
    ensures
        outcome_view(outcome) == resolve_declared(provider@, *build, capability),
{
    match Backend::from_tag(&provider.backend) {
        None => Err(ConfigurationError::UnknownBackend),
        Some(backend) => {
            if !build.includes(backend) {
                return Err(ConfigurationError::BackendUnavailable(backend));
            }
            if !backend.can_serve(capability) {
                return Err(ConfigurationError::CapabilityUnsupported(backend, capability));
            }
            if backend.requires_api_key() && !is_present(&provider.api_key) {
                return Err(ConfigurationError::MissingParameter(Parameter::ApiKey));
            }
            let declared = match capability {
                Capability::PromptCompletion => &provider.prompt_model,
                Capability::EmbeddingGeneration => &provider.embedding_model,
            };
            match declared {
                Some(model) => {
                    if model.as_str().is_empty() {
                        Err(ConfigurationError::MissingParameter(parameter_of_model(capability)))
                    } else {
                        Ok(
                            ProviderHandle {
                                capability,
                                backend,
                                model: model.clone(),
                                api_key: copy_parameter(&provider.api_key),
                            },
                        )
                    }
                },
                None => Err(ConfigurationError::MissingParameter(parameter_of_model(capability))),
            }
        },
    }
}

/// Resolves a selector of the configuration to a handle for one
/// capability. Nothing but the arguments decides the outcome, and no
/// provider is contacted.
pub fn resolve(
    config: &Config,
    build: &Availability,
    selector: &String,
    capability: Capability,
) -> (outcome: Result<ProviderHandle, ConfigurationError>)
    ensures
        outcome_view(outcome) == resolution(config@, *build, selector@, capability),
{
    match find_provider(&config.providers, selector) {
        None => Err(ConfigurationError::UnknownProvider),
        Some(provider) => resolve_provider(provider, build, capability),
    }
}

/// Whether a selector can be resolved for a capability: it names a declared
/// provider whose backend is recognized, part of the build and able to
/// serve the capability, and whose parameters for it are present.
pub open spec fn resolvable(
    config: ConfigView,
    build: Availability,
    selector: Seq<char>,
    capability: Capability,
) -> bool {
    &&& lookup(config.providers, selector) matches Some(provider)
    &&& Backend::of_tag(provider.backend) matches Some(backend)
    &&& build.has(backend)
    &&& backend.supports(capability)
    &&& backend.needs_api_key() ==> present(provider.api_key)
    &&& present(declared_model(provider, capability))
}

/// Whether every selector of the configuration can be resolved for the
/// capability it is used for: indexing and query for prompt completion,
/// embedding for embedding generation.
pub open spec fn valid(config: ConfigView, build: Availability) -> bool {
    &&& resolvable(config, build, config.indexing_provider, Capability::PromptCompletion)
    &&& resolvable(config, build, config.embedding_provider, Capability::EmbeddingGeneration)
    &&& resolvable(config, build, config.query_provider, Capability::PromptCompletion)
}

/// The first fault of a configuration, its selectors taken in the order
/// indexing, embedding, query.
pub open spec fn first_fault(config: ConfigView, build: Availability) -> Option<
    ConfigurationError,
> {
    let indexing = resolution(
        config,
        build,
        config.indexing_provider,
        Capability::PromptCompletion,
    );
    let embedding = resolution(
        config,
        build,
        config.embedding_provider,
        Capability::EmbeddingGeneration,
    );
    let query = resolution(config, build, config.query_provider, Capability::PromptCompletion);
    if indexing is Err {
        Some(indexing->Err_0)
    } else if embedding is Err {
        Some(embedding->Err_0)
    } else if query is Err {
        Some(query->Err_0)
    } else {
        None
    }
}

/// Checks a configuration before anything is started with it: all three
/// selectors must resolve.
pub fn validate(config: &Config, build: &Availability) -> (outcome: Result<
    (),
    ConfigurationError,
>)
    ensures
        outcome is Ok <==> valid(config@, *build),
        outcome matches Err(error) ==> first_fault(config@, *build) == Some(error),
{
    proof {
        law_resolves_exactly_when_resolvable(
            config@,
            *build,
            config@.indexing_provider,
            Capability::PromptCompletion,
        );
        law_resolves_exactly_when_resolvable(
            config@,
            *build,
            config@.embedding_provider,
            Capability::EmbeddingGeneration,
        );
        law_resolves_exactly_when_resolvable(
            config@,
            *build,
            config@.query_provider,
            Capability::PromptCompletion,
        );
    }
    match resolve(config, build, &config.indexing_provider, Capability::PromptCompletion) {
        Err(error) => {
            return Err(error);
        },
        Ok(_) => {},
    }
    match resolve(config, build, &config.embedding_provider, Capability::EmbeddingGeneration) {
        Err(error) => {
            return Err(error);
        },
        Ok(_) => {},
    }
    match resolve(config, build, &config.query_provider, Capability::PromptCompletion) {
        Err(error) => Err(error),
        Ok(_) => Ok(()),
    }
}

/// Where several providers are declared under one name, a selector refers
/// to the first of them.
pub proof fn law_lookup_gives_the_first(
    providers: Seq<ProviderConfigView>,
    name: Seq<char>,
    i: int,
)
    requires
        first_named(providers, name, i),
    ensures
        configured(providers, name),
        lookup(providers, name) == Some(providers[i]),
{
    let chosen = choose|c: int| first_named(providers, name, c);
    if chosen < i {
        assert(!named(providers, name, chosen));
    }
    if i < chosen {
        assert(!named(providers, name, i));
    }
}

/// A selector resolves if and only if it is resolvable, and the handle
/// then carries the capability that was asked for.
pub proof fn law_resolves_exactly_when_resolvable(
    config: ConfigView,
    build: Availability,
    selector: Seq<char>,
    capability: Capability,
)
    ensures
        resolution(config, build, selector, capability) is Ok <==> resolvable(
            config,
            build,
            selector,
            capability,
        ),
        resolution(config, build, selector, capability) matches Ok(handle)
            ==> handle.capability == capability,
{
}

/// In a valid configuration no selector fails to resolve, and the handle
/// for prompt completion differs from the handle for embedding generation.
pub proof fn law_valid_configuration_resolves(config: ConfigView, build: Availability)
    requires
        valid(config, build),
    ensures
        first_fault(config, build) is None,
        resolution(config, build, config.indexing_provider, Capability::PromptCompletion) is Ok,
        resolution(
            config,
            build,
            config.embedding_provider,
            Capability::EmbeddingGeneration,
        ) is Ok,
        resolution(config, build, config.query_provider, Capability::PromptCompletion) is Ok,
        resolution(config, build, config.indexing_provider, Capability::PromptCompletion)->Ok_0
            != resolution(
            config,
            build,
            config.embedding_provider,
            Capability::EmbeddingGeneration,
        )->Ok_0,
        resolution(config, build, config.query_provider, Capability::PromptCompletion)->Ok_0
            != resolution(
            config,
            build,
            config.embedding_provider,
            Capability::EmbeddingGeneration,
        )->Ok_0,
{
    law_resolves_exactly_when_resolvable(
        config,
        build,
        config.indexing_provider,
        Capability::PromptCompletion,
    );
    law_resolves_exactly_when_resolvable(
        config,
        build,
        config.embedding_provider,
        Capability::EmbeddingGeneration,
    );
    law_resolves_exactly_when_resolvable(
        config,
        build,
        config.query_provider,
        Capability::PromptCompletion,
    );
}

/// A selector that names no declared provider fails as an unknown
/// provider, whatever the capability and the build, and no configuration
/// that selects by it is valid.
pub proof fn law_unconfigured_provider_fails(
    config: ConfigView,
    build: Availability,
    selector: Seq<char>,
    capability: Capability,
)
    requires
        !configured(config.providers, selector),
    ensures
        resolution(config, build, selector, capability) == Err::<
            ProviderHandleView,
            ConfigurationError,
        >(ConfigurationError::UnknownProvider),
        !valid(
            ConfigView { indexing_provider: selector, ..config },
            build,
        ),
        !valid(
            ConfigView { embedding_provider: selector, ..config },
            build,
        ),
        !valid(ConfigView { query_provider: selector, ..config }, build),
{
}

/// Every backend is named by its own tag and by no other backend's.
pub proof fn law_tags_name_backends(backend: Backend)
    ensures
        Backend::of_tag(backend.tag()) == Some(backend),
{
    reveal_strlit("openai");
    reveal_strlit("ollama");
    reveal_strlit("fastembed");
    assert("openai"@[1] == 'p');
    assert("ollama"@[1] == 'l');
}

} // verus!
