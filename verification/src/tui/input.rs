//! Input handling for TUI keyboard events and user interaction
use vstd::prelude::*;

verus! {

/// A key pressed on the terminal.
#[derive(Clone, Copy, Debug, PartialEq, Eq, Structural)]
pub enum Key {
    /// A printable character
    Char(char),
    Esc,
    Enter,
    Up,
    Down,
    /// Any other key
    Other,
}

/// Actions that can be triggered by user input
#[derive(Debug, Clone, Copy, PartialEq, Eq, Structural)]
pub enum InputAction {
    /// Exit the application
    Exit,
    /// Toggle power state
    TogglePower,
    /// Show/hide help overlay
    ToggleHelp,
}

/// Action of a key: `q` and Esc exit, `?` toggles help, space toggles power.
pub open spec fn action_of(key: Key) -> Option<InputAction> {
    match key {
        Key::Char(c) => if c == 'q' {
            Some(InputAction::Exit)
        } else if c == '?' {
            Some(InputAction::ToggleHelp)
        } else if c == ' ' {
            Some(InputAction::TogglePower)
        } else {
            None
        },
        Key::Esc => Some(InputAction::Exit),
        _ => None,
    }
}

/// Handles keyboard input events for the TUI
#[derive(Debug)]
pub struct InputHandler {
    /// Whether help overlay is currently shown
    help_visible: bool,
}

impl InputHandler {
    /// Whether the help overlay is shown.
    pub closed spec fn help(&self) -> bool {
        self.help_visible
    }

    /// A handler with the help overlay hidden
    pub fn new() -> (h: Self)
        ensures
            !h.help(),
    {
        Self { help_visible: false }
    }

    /// Process a key event and return the corresponding action
    pub fn handle_key(&mut self, key: Key) -> (r: Option<InputAction>)
        ensures
            r == action_of(key),
            final(self).help() == help_after(old(self).help(), key),
    {
        match key {
            Key::Char(c) => {
                if c == 'q' {
                    Some(InputAction::Exit)
                } else if c == '?' {
                    self.help_visible = !self.help_visible;
                    Some(InputAction::ToggleHelp)
                } else if c == ' ' {
                    Some(InputAction::TogglePower)
                } else {
                    None
                }
            },
            Key::Esc => Some(InputAction::Exit),
            _ => None,
        }
    }

    /// Returns whether help overlay is visible
    pub fn is_help_visible(&self) -> (r: bool)
        ensures
            r == self.help(),
    {
        self.help_visible
    }
}

impl Default for InputHandler {
    fn default() -> (h: Self)
        ensures
            !h.help(),
    {
        Self::new()
    }
}

/// Help visibility after `key`, starting from `help`.
pub open spec fn help_after(help: bool, key: Key) -> bool {
    help != (action_of(key) == Some(InputAction::ToggleHelp))
}

/// `q` and Esc, and only they, exit; `?` alone toggles the help and space
/// alone toggles the power; every other key (arrows, Enter, other
/// characters) asks for nothing.
pub proof fn lemma_key_actions(key: Key)
    ensures
        action_of(key) == Some(InputAction::Exit) <==> (key == Key::Char('q') || key == Key::Esc),
        action_of(key) == Some(InputAction::ToggleHelp) <==> key == Key::Char('?'),
        action_of(key) == Some(InputAction::TogglePower) <==> key == Key::Char(' '),
        (key != Key::Char('q') && key != Key::Esc && key != Key::Char('?') && key != Key::Char(' '))
            ==> action_of(key) is None,
{
}

/// Pressing `?` twice leaves the help overlay as it was, and no other key
/// changes it.
pub proof fn lemma_help_toggle(help: bool, key: Key)
    ensures
        help_after(help_after(help, Key::Char('?')), Key::Char('?')) == help,
        key != Key::Char('?') ==> help_after(help, key) == help,
{
}

} // verus!
