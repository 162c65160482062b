//! The credential the message generation service is called with.

use vstd::prelude::*;
use crate::text::{is_blank, spec_is_blank};

verus! {

/// Why no configuration could be loaded.
#[derive(Clone, Copy, Debug, PartialEq, Eq, Structural)]
pub enum ConfigError {
    /// The variable is not set.
    Missing,
    /// The variable is set, but nothing is left of it after trimming.
    Empty,
}

impl ConfigError {
    /// The text that tells the user what to do.
    pub open spec fn spec_message(self) -> Seq<char> {
        match self {
            ConfigError::Missing => "OPENROUTER_API_KEY environment variable is not set. Please set it to your OpenRouter API key."@,
            ConfigError::Empty => "OPENROUTER_API_KEY environment variable is empty. Please provide a valid API key."@,
        }
    }

    /// The text that tells the user what to do.
    pub fn message(&self) -> (s: String)
        ensures
            s@ == self.spec_message(),
    {
        match self {
            ConfigError::Missing => "OPENROUTER_API_KEY environment variable is not set. Please set it to your OpenRouter API key.".to_owned(),
            ConfigError::Empty => "OPENROUTER_API_KEY environment variable is empty. Please provide a valid API key.".to_owned(),
        }
    }
}

/// Configuration for the application.
#[derive(Debug)]
pub struct Config {
    /// The API key, exactly as it was supplied.
    pub openrouter_api_key: String,
}

impl Config {
    /// The name of the environment variable that holds the API key.
    pub fn variable() -> (name: &'static str)
        ensures
            name@ == "OPENROUTER_API_KEY"@,
    {
        "OPENROUTER_API_KEY"
    }

    /// Loads the configuration from the value of the environment variable
    /// named by [`Config::variable`]: `None` when it is not set. The key is
    /// kept untouched; it is rejected when it is missing or blank.
    pub fn load(value: Option<String>) -> (r: Result<Config, ConfigError>)
        ensures
            match value {
                None => r == Err::<Config, ConfigError>(ConfigError::Missing),
                Some(key) => if spec_is_blank(key@) {
                    r == Err::<Config, ConfigError>(ConfigError::Empty)
                } else {
                    r == Ok::<Config, ConfigError>((Config { openrouter_api_key: key }))
                },
            },
    {
        match value {
            None => Err(ConfigError::Missing),
            Some(openrouter_api_key) => {
                if is_blank(openrouter_api_key.as_str()) {
                    Err(ConfigError::Empty)
                } else {
                    Ok(Config { openrouter_api_key })
                }
            },
        }
    }
}

} // verus!
