//! The application context: owner of the runtime configuration.

use vstd::prelude::*;
use crate::config::{same_config, Config};

verus! {

/// The execution context of the core runtime; it owns the configuration
/// and gives read access to it.
#[derive(Debug)]
pub struct ApplicationContext {
    config: Config,
}

impl ApplicationContext {
    /// The configuration the context owns.
    pub closed spec fn spec_config(&self) -> Config {
        self.config
    }

    /// A context owning `config`.
    pub fn new(config: Config) -> (r: Self)
        ensures
            r.spec_config() == config,
    {
        ApplicationContext { config }
    }

    /// The runtime configuration.
    pub fn config(&self) -> (r: &Config)
        ensures
            *r == self.spec_config(),
    {
        &self.config
    }

    /// A copy of the context with the same configuration content.
    pub fn duplicate(&self) -> (r: Self)
        ensures
            same_config(r.spec_config(), self.spec_config()),
    {
        ApplicationContext { config: self.config.duplicate() }
    }
}

impl Default for ApplicationContext {
    fn default() -> (r: Self)
        ensures
            r.spec_config().is_default(),
    {
        ApplicationContext::new(Config::default())
    }
}

impl Clone for ApplicationContext {
    fn clone(&self) -> (r: Self)
        ensures
            same_config(r.spec_config(), self.spec_config()),
    {
        self.duplicate()
    }
}

} // verus!
