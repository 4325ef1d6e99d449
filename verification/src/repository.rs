use crate::config::Config;
use crate::config::ConfigView;
use vstd::prelude::*;
use vstd::string::StringExecFns;

verus! {

/// A loaded configuration bound to the root directory of the project it
/// describes. Neither changes after construction; every pipeline run is
/// handed a reference to the same value.
#[derive(Debug)]
pub struct Repository {
    config: Config,
    path: String,
}

/// The mathematical content of a [`Repository`].
pub struct RepositoryView {
    pub config: ConfigView,
    pub path: Seq<char>,
}

impl View for Repository {
    type V = RepositoryView;

    closed spec fn view(&self) -> RepositoryView {
        RepositoryView { config: self.config@, path: self.path@ }
    }
}

impl Clone for Repository {
    /// A copy for another pipeline run: the same configuration at the same
    /// path.
    fn clone(&self) -> (copy: Repository)
        ensures
            copy@ == self@,
    {
        Repository { config: self.config.clone(), path: self.path.clone() }
    }
}

impl Repository {
    /// Binds a configuration to the current directory.
    pub fn from_config(config: Config) -> (repository: Repository)
        ensures
            repository@.config == config@,
            repository@.path == "."@,
    {
        Repository { config, path: String::from_str(".") }
    }

    /// The root directory of the project.
    pub fn path(&self) -> (path: &String)
        ensures
            path@ == self@.path,
    {
        &self.path
    }

    pub fn config(&self) -> (config: &Config)
        ensures
            config@ == self@.config,
    {
        &self.config
    }
}

} // verus!
