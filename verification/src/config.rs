use std::str::FromStr;
use swiftide::integrations::treesitter::SupportedLanguages;
use vstd::prelude::*;

verus! {

/// The programming languages a project can be indexed as.
#[derive(Clone, Copy, Debug, PartialEq, Eq, Structural)]
pub enum Language {
    Rust,
    Typescript,
    Python,
    Ruby,
    Javascript,
    Java,
    Go,
    Solidity,
}

/// The number that stands for a character when upper and lower case of the
/// letters A to Z are not told apart.
pub open spec fn folded(c: char) -> int {
    if 'A' <= c && c <= 'Z' {
        c as int + 32
    } else {
        c as int
    }
}

/// Whether two texts are the same but for the case of the letters A to Z.
pub open spec fn same_but_for_case(a: Seq<char>, b: Seq<char>) -> bool {
    a.len() == b.len() && forall|i: int| 0 <= i < a.len() ==> folded(a[i]) == folded(b[i])
}

impl Language {
    /// The language that a name stands for. Case does not count.
    pub open spec fn named(name: Seq<char>) -> Option<Language> {
        if same_but_for_case(name, "Rust"@) {
            Some(Language::Rust)
        } else if same_but_for_case(name, "Typescript"@) {
            Some(Language::Typescript)
        } else if same_but_for_case(name, "Python"@) {
            Some(Language::Python)
        } else if same_but_for_case(name, "Ruby"@) {
            Some(Language::Ruby)
        } else if same_but_for_case(name, "Javascript"@) {
            Some(Language::Javascript)
        } else if same_but_for_case(name, "Java"@) {
            Some(Language::Java)
        } else if same_but_for_case(name, "Go"@) {
            Some(Language::Go)
        } else if same_but_for_case(name, "Solidity"@) {
            Some(Language::Solidity)
        } else {
            None
        }
    }

    /// The name of the language.
    pub open spec fn name(self) -> Seq<char> {
        match self {
            Language::Rust => "Rust"@,
            Language::Typescript => "Typescript"@,
            Language::Python => "Python"@,
            Language::Ruby => "Ruby"@,
            Language::Javascript => "Javascript"@,
            Language::Java => "Java"@,
            Language::Go => "Go"@,
            Language::Solidity => "Solidity"@,
        }
    }

    /// Reads the language selection of a configuration.
    pub fn from_name(name: &str) -> (language: Option<Language>)
        ensures
            language == Language::named(name@),
    {
        treesitter_language(name)
    }

    /// The file extensions, without the dot, of the files that belong to a
    /// project in this language, in the order in which they are tried.
    pub open spec fn extensions(self) -> Seq<Seq<char>> {
        match self {
            Language::Rust => seq!["rs"@],
            Language::Typescript => seq!["ts"@, "tsx"@, "js"@, "jsx"@],
            Language::Python => seq!["py"@],
            Language::Ruby => seq!["rb"@],
            Language::Javascript => seq!["js"@, "jsx"@],
            Language::Java => seq!["java"@],
            Language::Go => seq!["go"@],
            Language::Solidity => seq!["sol"@],
        }
    }

    /// The extension set that file enumeration is filtered by.
    pub fn file_extensions(self) -> (extensions: Vec<String>)
        ensures
            extensions.deep_view() == self.extensions(),
    {
        treesitter_file_extensions(self)
    }
}

/// Calls `SupportedLanguages::file_extensions` of swiftide's tree-sitter
/// integration on the variant of the same name. Trusted: that method is a
/// table from language to a static list of extensions, and the contract
/// repeats that table.
#[verifier::external_body]
fn treesitter_file_extensions(language: Language) -> (extensions: Vec<String>)
    ensures
        extensions.deep_view() == language.extensions(),
{
    let outside = match language {
        Language::Rust => SupportedLanguages::Rust,
        Language::Typescript => SupportedLanguages::Typescript,
        Language::Python => SupportedLanguages::Python,
        Language::Ruby => SupportedLanguages::Ruby,
        Language::Javascript => SupportedLanguages::Javascript,
        Language::Java => SupportedLanguages::Java,
        Language::Go => SupportedLanguages::Go,
        Language::Solidity => SupportedLanguages::Solidity,
    };
    outside.file_extensions().iter().map(|extension| extension.to_string()).collect()
}

/// Calls `SupportedLanguages::from_str` of swiftide's tree-sitter
/// integration and gives the variant of the same name. Trusted: that
/// function compares the text with each variant's name by
/// `str::eq_ignore_ascii_case` and fails where none matches.
#[verifier::external_body]
fn treesitter_language(name: &str) -> (language: Option<Language>)
    ensures
        language == Language::named(name@),
{
    match SupportedLanguages::from_str(name) {
        Ok(SupportedLanguages::Rust) => Some(Language::Rust),
        Ok(SupportedLanguages::Typescript) => Some(Language::Typescript),
        Ok(SupportedLanguages::Python) => Some(Language::Python),
        Ok(SupportedLanguages::Ruby) => Some(Language::Ruby),
        Ok(SupportedLanguages::Javascript) => Some(Language::Javascript),
        Ok(SupportedLanguages::Java) => Some(Language::Java),
        Ok(SupportedLanguages::Go) => Some(Language::Go),
        Ok(SupportedLanguages::Solidity) => Some(Language::Solidity),
        _ => None,
    }
}

/// One backend as the configuration declares it: a name that selectors
/// refer to, the tag of the backend kind, and the parameters of that kind.
#[derive(Debug, PartialEq, Eq)]
pub struct ProviderConfig {
    pub name: String,
    pub backend: String,
    pub api_key: Option<String>,
    pub prompt_model: Option<String>,
    pub embedding_model: Option<String>,
}

/// The mathematical content of a [`ProviderConfig`].
pub struct ProviderConfigView {
    pub name: Seq<char>,
    pub backend: Seq<char>,
    pub api_key: Option<Seq<char>>,
    pub prompt_model: Option<Seq<char>>,
    pub embedding_model: Option<Seq<char>>,
}

impl View for ProviderConfig {
    type V = ProviderConfigView;

    open spec fn view(&self) -> ProviderConfigView {
        ProviderConfigView {
            name: self.name@,
            backend: self.backend@,
            api_key: self.api_key.deep_view(),
            prompt_model: self.prompt_model.deep_view(),
            embedding_model: self.embedding_model.deep_view(),
        }
    }
}

impl DeepView for ProviderConfig {
    type V = ProviderConfigView;

    open spec fn deep_view(&self) -> ProviderConfigView {
        self@
    }
}

/// Copies a parameter that may be absent.
pub fn copy_parameter(parameter: &Option<String>) -> (copy: Option<String>)
    ensures
        copy.deep_view() == parameter.deep_view(),
{
    match parameter {
        Some(text) => Some(text.clone()),
        None => None,
    }
}

impl Clone for ProviderConfig {
    fn clone(&self) -> (copy: ProviderConfig)
        ensures
            copy@ == self@,
    {
        ProviderConfig {
            name: self.name.clone(),
            backend: self.backend.clone(),
            api_key: copy_parameter(&self.api_key),
            prompt_model: copy_parameter(&self.prompt_model),
            embedding_model: copy_parameter(&self.embedding_model),
        }
    }
}

/// The loaded configuration of one project. Nothing changes it once it is
/// loaded.
#[derive(Debug, PartialEq, Eq)]
pub struct Config {
    pub language: Language,
    pub providers: Vec<ProviderConfig>,
    pub indexing_provider: String,
    pub embedding_provider: String,
    pub query_provider: String,
    pub cache_dir: String,
    pub log_dir: String,
}

/// The mathematical content of a [`Config`].
pub struct ConfigView {
    pub language: Language,
    pub providers: Seq<ProviderConfigView>,
    pub indexing_provider: Seq<char>,
    pub embedding_provider: Seq<char>,
    pub query_provider: Seq<char>,
    pub cache_dir: Seq<char>,
    pub log_dir: Seq<char>,
}

impl View for Config {
    type V = ConfigView;

    open spec fn view(&self) -> ConfigView {
        ConfigView {
            language: self.language,
            providers: self.providers.deep_view(),
            indexing_provider: self.indexing_provider@,
            embedding_provider: self.embedding_provider@,
            query_provider: self.query_provider@,
            cache_dir: self.cache_dir@,
            log_dir: self.log_dir@,
        }
    }
}

impl Clone for Config {
    fn clone(&self) -> (copy: Config)
        ensures
            copy@ == self@,
    {
        let mut providers: Vec<ProviderConfig> = Vec::new();
        let mut i: usize = 0;
        while i < self.providers.len()
            invariant
                i <= self.providers.len(),
                providers.len() == i,
                forall|k: int| 0 <= k < i ==> providers[k]@ == self.providers[k]@,
            decreases self.providers.len() - i,
        {
            providers.push(self.providers[i].clone());
            i += 1;
        }
        proof {
            assert(providers.deep_view() =~= self.providers.deep_view());
        }
        Config {
            language: self.language,
            providers,
            indexing_provider: self.indexing_provider.clone(),
            embedding_provider: self.embedding_provider.clone(),
            query_provider: self.query_provider.clone(),
            cache_dir: self.cache_dir.clone(),
            log_dir: self.log_dir.clone(),
        }
    }
}

impl Config {
    /// The name of the provider that writes the metadata of indexed chunks.
    pub fn indexing_provider(&self) -> (name: &String)
        ensures
            name@ == self@.indexing_provider,
    {
        &self.indexing_provider
    }

    /// The name of the provider that computes embeddings.
    pub fn embedding_provider(&self) -> (name: &String)
        ensures
            name@ == self@.embedding_provider,
    {
        &self.embedding_provider
    }

    /// The name of the provider that answers queries.
    pub fn query_provider(&self) -> (name: &String)
        ensures
            name@ == self@.query_provider,
    {
        &self.query_provider
    }

    pub fn cache_dir(&self) -> (dir: &String)
        ensures
            dir@ == self@.cache_dir,
    {
        &self.cache_dir
    }

    pub fn log_dir(&self) -> (dir: &String)
        ensures
            dir@ == self@.log_dir,
    {
        &self.log_dir
    }
}

/// Names that differ only in the case of their letters are read alike.
pub proof fn law_language_names_ignore_case(a: Seq<char>, b: Seq<char>)
    requires
        same_but_for_case(a, b),
    ensures
        Language::named(a) == Language::named(b),
{
}

/// Every language is read from its own name, and from no other's.
pub proof fn law_every_language_has_a_name(language: Language)
    ensures
        Language::named(language.name()) == Some(language),
{
    reveal_strlit("Rust");
    reveal_strlit("Typescript");
    reveal_strlit("Python");
    reveal_strlit("Ruby");
    reveal_strlit("Javascript");
    reveal_strlit("Java");
    reveal_strlit("Go");
    reveal_strlit("Solidity");
    assert(folded("Ruby"@[2]) != folded("Rust"@[2]));
    assert(folded("Javascript"@[0]) != folded("Typescript"@[0]));
}

} // verus!
