//! The user's configuration: which models to ask. Reading and writing the
//! configuration file is the caller's business.

use vstd::prelude::*;
use vstd::string::*;

verus! {

#[derive(Debug)]
pub struct Config {
    /// The model that writes recommendations.
    pub ollama_model: String,
    /// The model that computes embeddings.
    pub embedding_model: String,
}

impl Clone for Config {
    fn clone(&self) -> (copy: Self)
        ensures
            copy.ollama_model@ == self.ollama_model@,
            copy.embedding_model@ == self.embedding_model@,
    {
        Config {
            ollama_model: self.ollama_model.clone(),
            embedding_model: self.embedding_model.clone(),
        }
    }
}

/// The configuration of a fresh installation.
pub fn default_config() -> (config: Config)
    ensures
        config.ollama_model@ == "qwen3-coder:480b-cloud"@,
        config.embedding_model@ == "all-minilm"@,
{
    Config {
        ollama_model: String::from_str("qwen3-coder:480b-cloud"),
        embedding_model: String::from_str("all-minilm"),
    }
}

/// The configuration to use, given the one found in the configuration
/// file, if the file exists. Where there is none, the defaults apply and
/// `write_back` tells the caller to create the file with them.
pub fn load_config(stored: Option<Config>) -> (loaded: (Config, bool))
    ensures
        match stored {
            Some(config) => loaded.0 == config && !loaded.1,
            None => loaded.0.ollama_model@ == "qwen3-coder:480b-cloud"@
                && loaded.0.embedding_model@ == "all-minilm"@ && loaded.1,
        },
{
    match stored {
        Some(config) => (config, false),
        None => (default_config(), true),
    }
}

} // verus!
