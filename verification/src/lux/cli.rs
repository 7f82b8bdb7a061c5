//! Command-line settings of the ambient-light daemon.

use vstd::prelude::*;

verus! {

/// The broker host used when none is given.
pub const DEFAULT_HOSTNAME: &'static str = "homeassistant";

/// The broker port used when none is given.
pub const DEFAULT_PORT: u16 = 1883;

/// Where the broker is, how to log in, which topic the sensor publishes on, and where the
/// user's runtime directory is.
pub struct Cli {
    pub hostname: String,
    pub port: u16,
    pub ha_username: String,
    pub ha_password: String,
    pub ha_zigbee_lux_topic: String,
    pub runtime_dir: String,
}

} // verus!
