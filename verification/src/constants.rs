use vstd::prelude::*;

verus! {

/// Name of the server type, first level of every MQTT topic and MCP path.
pub const SERVER_TYPE_NAME: &'static str = "power-supply";

} // verus!
