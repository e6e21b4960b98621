//! Command line interface for the power supply application.
use crate::server::config::ServicesOverrides;
use vstd::prelude::*;

verus! {

/// Parsed command line: the subcommand to execute
#[derive(Debug, Clone, PartialEq, Eq, Structural)]
pub struct Args {
    /// Subcommand to execute
    pub command: Commands,
}

/// Top-level subcommands supported by the CLI
#[derive(Debug, Clone, PartialEq, Eq, Structural)]
pub enum Commands {
    /// List available resources (mcps, drivers, devices)
    List { mcps: bool, drivers: bool, devices: bool },
    /// Run the power supply application (disable services with flags)
    Run { no_tui: bool, no_broker: bool, no_mcp: bool, no_runners: bool, no_traces: bool },
}

impl Commands {
    /// The services a `run` command disables; `None` for `list`
    pub fn services_overrides(&self) -> (r: Option<ServicesOverrides>)
        ensures
            match *self {
                Commands::Run { no_tui, no_broker, no_mcp, no_runners, no_traces } => r matches Some(o)
                    && o.no_tui == no_tui && o.no_mcp == no_mcp && o.no_runners == no_runners,
                Commands::List { .. } => r is None,
            },
    {
        match self {
            Commands::Run { no_tui, no_broker: _, no_mcp, no_runners, no_traces: _ } => Some(
                ServicesOverrides { no_tui: *no_tui, no_mcp: *no_mcp, no_runners: *no_runners },
            ),
            Commands::List { .. } => None,
        }
    }
}

} // verus!
