//! The command-line surface, as plain data.
//!
//! Argument parsing, environment lookup and defaulting happen at the
//! process boundary; what reaches the library is this already-filled shape.

use vstd::prelude::*;

verus! {

/// The tool's invocation: one of the commands below.
#[derive(Debug)]
pub struct Cli {
    pub command: Commands,
}

/// What the operator asked for.
#[derive(Debug)]
pub enum Commands {
    /// Validate the configuration file.
    Lint(Lint),
    /// Apply the configuration to the monitoring site.
    Apply(Apply),
}

/// Validate a configuration file without touching any remote system.
#[derive(Debug)]
pub struct Lint {
    /// The configuration file to use.
    pub config_file: String,
    /// Print the internal representation after loading.
    pub print_config: bool,
}

/// Apply a configuration file to a remote site.
#[derive(Debug)]
pub struct Apply {
    /// URL of the server, including any path prefix.
    pub server_url: String,
    /// The site to configure.
    pub site: String,
    /// The user to authenticate as.
    pub username: String,
    /// The authentication secret.
    pub secret: String,
    /// The configuration file to use.
    pub config_file: String,
}

} // verus!
