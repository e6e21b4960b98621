//! Terminal user interface of a single power supply instance.
pub mod input;
pub mod layout;

use crate::tui::input::Key;
use vstd::prelude::*;

verus! {

/// Application state for the TUI
#[derive(Debug)]
pub struct App {
    /// Whether the application should quit
    should_quit: bool,
    /// Current instance name being controlled
    instance_name: Option<String>,
}

impl App {
    /// Whether the application quits.
    pub closed spec fn quitting(&self) -> bool {
        self.should_quit
    }

    /// Name of the controlled instance.
    pub closed spec fn instance(&self) -> Option<Seq<char>> {
        match self.instance_name {
            Some(n) => Some(n@),
            None => None,
        }
    }

    /// Create a new application instance
    pub fn new(instance_name: Option<String>) -> (app: Self)
        ensures
            !app.quitting(),
            app.instance() == match instance_name {
                Some(n) => Some(n@),
                None => None::<Seq<char>>,
            },
    {
        Self { should_quit: false, instance_name }
    }

    /// Handle keyboard input events: `q` and Esc quit
    pub fn handle_input(&mut self, key: Key)
        ensures
            final(self).quitting() == (old(self).quitting() || key == Key::Char('q') || key == Key::Esc),
            final(self).instance() == old(self).instance(),
    {
        match key {
            Key::Char(c) => {
                if c == 'q' {
                    self.should_quit = true;
                }
            },
            Key::Esc => {
                self.should_quit = true;
            },
            _ => {},
        }
    }

    /// Check if the application should quit
    pub fn should_quit(&self) -> (r: bool)
        ensures
            r == self.quitting(),
    {
        self.should_quit
    }

    /// Title of the window
    pub fn title(&self) -> (r: String)
        ensures
            r@ == match self.instance() {
                Some(n) => "Power Supply TUI - Instance: "@ + n,
                None => "Power Supply TUI - No Instance Selected"@,
            },
    {
        match &self.instance_name {
            Some(name) => String::from_str("Power Supply TUI - Instance: ").concat(name.as_str()),
            None => String::from_str("Power Supply TUI - No Instance Selected"),
        }
    }
}

impl Default for App {
    /// An application with no instance selected
    fn default() -> (app: Self)
        ensures
            !app.quitting(),
            app.instance() is None,
    {
        Self::new(None)
    }
}

} // verus!
