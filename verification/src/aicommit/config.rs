//! Settings of the commit-message generator.

use vstd::prelude::*;

verus! {

/// Where the model is reached and which model writes the message.
pub struct Config {
    pub openai_api_key: String,
    pub openai_api_url: String,
    pub model_name: String,
}

/// The name of the settings file in the home directory.
pub const CONFIG_FILE_NAME: &'static str = ".aicommit.toml";

} // verus!
