use vstd::prelude::*;

verus! {

/// Settings of the terminal user interface
#[derive(Clone, Debug)]
pub struct TuiConfig {
    /// Enable or disable the TUI
    pub enable: Option<bool>,
    /// Keyboard shortcut to toggle power output
    pub power_toggle_key: Option<String>,
}

} // verus!
