//! What the graphical interface shows and asks for: the control box state,
//! the power button, the setters' input fields and the MCP page.
use crate::constants::SERVER_TYPE_NAME;
use crate::server::tui::PowerAction;
use vstd::prelude::*;

verus! {

/// What the control box shows.
#[derive(Clone, Copy, Debug, PartialEq, Eq, Structural)]
pub enum ControlBoxView {
    /// No instance is configured
    NoInstance,
    /// Instances exist but no client or no selection yet
    NotInitialized,
    /// Selector, power button and voltage setter
    Controls,
}

/// The view of the control box
pub fn control_box_view(
    has_client: bool,
    selected_instance: &Option<String>,
    instances_names: &Option<Vec<String>>,
) -> (r: ControlBoxView)
    ensures
        r == if instances_names is None || instances_names->0.len() == 0 {
            ControlBoxView::NoInstance
        } else if !has_client || selected_instance is None {
            ControlBoxView::NotInitialized
        } else {
            ControlBoxView::Controls
        },
{
    let no_instance_available = match instances_names {
        None => true,
        Some(names) => names.len() == 0,
    };
    if no_instance_available {
        ControlBoxView::NoInstance
    } else if !has_client || selected_instance.is_none() {
        ControlBoxView::NotInitialized
    } else {
        ControlBoxView::Controls
    }
}

/// CSS class and label of the power status, for a known or unknown output state.
pub open spec fn power_status_spec(state: Option<bool>) -> (Seq<char>, Seq<char>) {
    match state {
        Some(true) => ("power-button-status on"@, "ON"@),
        Some(false) => ("power-button-status off"@, "OFF"@),
        None => ("power-button-status unknown"@, "UPDATING..."@),
    }
}

/// CSS class and label of the power status
pub fn power_status(state: Option<bool>) -> (r: (&'static str, &'static str))
    ensures
        (r.0@, r.1@) == power_status_spec(state),
{
    match state {
        Some(true) => ("power-button-status on", "ON"),
        Some(false) => ("power-button-status off", "OFF"),
        None => ("power-button-status unknown", "UPDATING..."),
    }
}

/// CSS class of the toggle button; the button is disabled while the state
/// is unknown
pub fn power_toggle_button(state: Option<bool>) -> (r: (&'static str, bool))
    ensures
        r.0@ == if state is Some {
            "power-button-toggle enabled"@
        } else {
            "power-button-toggle disabled"@
        },
        r.1 == (state is None),
{
    match state {
        Some(_) => ("power-button-toggle enabled", false),
        None => ("power-button-toggle disabled", true),
    }
}

/// A click on the toggle: the action to request, the state shown while it
/// runs (unknown), and the state to restore if the request fails.
#[derive(Clone, Copy, Debug)]
pub struct PowerToggle {
    pub action: PowerAction,
    pub pending_state: Option<bool>,
    pub state_on_error: Option<bool>,
}

/// What a click on the power toggle does, from the displayed state; an
/// unknown state counts as disabled
pub fn power_toggle_click(state: Option<bool>) -> (r: PowerToggle)
    ensures
        r.action == if state == Some(true) {
            PowerAction::Disable
        } else {
            PowerAction::Enable
        },
        r.pending_state is None,
        r.state_on_error == Some(state == Some(true)),
{
    let current_enabled = match state {
        Some(b) => b,
        None => false,
    };
    PowerToggle {
        action: if current_enabled { PowerAction::Disable } else { PowerAction::Enable },
        pending_state: None,
        state_on_error: Some(current_enabled),
    }
}

/// State of a voltage or current setter: the last value read from the
/// power supply and the value typed but not yet confirmed.
#[derive(Clone, Debug)]
pub struct SetterState {
    pub reading: Option<String>,
    pub request: Option<String>,
}

/// What happens to a setter.
#[derive(Clone, Debug)]
pub enum SetterEvent {
    /// The first value read when the setter starts
    Loaded(String),
    /// The user typed `text` in the input field
    Typed(String),
    /// The power supply reported a new value
    Notified(String),
    /// The user clicked Set
    SetClicked,
}

/// A setter before anything is read or typed
pub fn setter_new() -> (s: SetterState)
    ensures
        s.reading is None,
        s.request is None,
{
    SetterState { reading: None, request: None }
}

/// Next state of a setter, with the value to send to the power supply if any:
/// loading stores the reading, typing records the request, a notification
/// stores the reading and clears the request, Set sends the pending request
pub fn setter_step(state: SetterState, event: SetterEvent) -> (r: (SetterState, Option<String>))
    ensures
        match event {
            SetterEvent::Loaded(v) => r.0.reading == Some(v) && r.0.request == state.request
                && r.1 is None,
            SetterEvent::Typed(t) => r.0.reading == state.reading && r.0.request == Some(t)
                && r.1 is None,
            SetterEvent::Notified(v) => r.0.reading == Some(v) && r.0.request is None
                && r.1 is None,
            SetterEvent::SetClicked => r.0 == state && r.1 == state.request,
        },
{
    match event {
        SetterEvent::Loaded(v) => (SetterState { reading: Some(v), request: state.request }, None),
        SetterEvent::Typed(t) => (SetterState { reading: state.reading, request: Some(t) }, None),
        SetterEvent::Notified(v) => (SetterState { reading: Some(v), request: None }, None),
        SetterEvent::SetClicked => {
            let send = state.request.clone();
            (state, send)
        },
    }
}

/// The Set button is enabled exactly while a request is pending
pub fn set_enabled(state: &SetterState) -> (r: bool)
    ensures
        r == state.request is Some,
{
    state.request.is_some()
}

/// Value of a setter's input field: the pending request, else the last
/// reading, else empty
pub fn setter_input_value(state: &SetterState) -> (r: String)
    ensures
        r@ == match state.request {
            Some(v) => v@,
            None => match state.reading {
                Some(v) => v@,
                None => Seq::<char>::empty(),
            },
        },
{
    match &state.request {
        Some(v) => v.clone(),
        None => match &state.reading {
            Some(v) => v.clone(),
            None => String::new(),
        },
    }
}

/// URL of the MCP server of instance `name`, as shown on the MCP page.
pub open spec fn mcp_page_url_spec(name: Seq<char>) -> Seq<char> {
    "http://127.0.0.1:3000/"@ + SERVER_TYPE_NAME@ + "/"@ + name
}

/// URL of the MCP server of an instance, as shown on the MCP page
pub fn mcp_page_url(name: &str) -> (r: String)
    ensures
        r@ == mcp_page_url_spec(name@),
{
    String::from_str("http://127.0.0.1:3000/").concat(SERVER_TYPE_NAME).concat("/").concat(name)
}

/// Instance selected once the names are loaded: the current selection, or
/// the first name when there is none
pub fn initial_selection(selected: Option<String>, names: &Vec<String>) -> (r: Option<String>)
    ensures
        r == if selected is None && names.len() > 0 {
            Some(names[0])
        } else {
            selected
        },
{
    match selected {
        None => {
            if names.len() > 0 {
                Some(names[0].clone())
            } else {
                None
            }
        },
        Some(s) => Some(s),
    }
}

/// What the MCP page shows.
#[derive(Clone, Debug)]
pub enum McpPageView {
    /// The instance names are not known yet
    Loading,
    /// No instance is configured
    NoInstances,
    /// The instance selector, with the selected instance's MCP URL if any
    Selector { display_url: Option<String> },
}

/// The view of the MCP page
pub fn mcp_page_view(names: &Option<Vec<String>>, selected: &Option<String>) -> (r: McpPageView)
    ensures
        match names {
            None => r is Loading,
            Some(n) => if n.len() == 0 {
                r is NoInstances
            } else {
                r matches McpPageView::Selector { display_url } && match selected {
                    Some(s) => display_url matches Some(u) && u@ == mcp_page_url_spec(s@),
                    None => display_url is None,
                }
            },
        },
{
    match names {
        None => McpPageView::Loading,
        Some(n) => {
            if n.len() == 0 {
                McpPageView::NoInstances
            } else {
                let display_url = match selected {
                    Some(s) => Some(mcp_page_url(s.as_str())),
                    None => None,
                };
                McpPageView::Selector { display_url }
            }
        },
    }
}

} // verus!
