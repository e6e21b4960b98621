use vstd::prelude::*;

verus! {

/// Settings of the MCP server
#[derive(Clone, Debug)]
pub struct McpConfig {
    /// Enable or disable the MCP server
    pub enable: bool,
    /// Bind address of the MCP server
    pub host: String,
    /// Port of the MCP server
    pub port: u16,
}

} // verus!
