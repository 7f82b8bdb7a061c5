//! The key for the weather service.

use vstd::prelude::*;

verus! {

/// The environment variable that holds the key.
pub const API_KEY_VARIABLE: &'static str = "RAPIDAPI_KEY";

/// The weather client's settings.
pub struct Config {
    pub api_key: String,
}

} // verus!
