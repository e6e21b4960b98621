//! State of the server's terminal user interface: one widget per power
//! supply instance, a selection, and the messages shown to the user.
use crate::tui::input::Key;
use vstd::prelude::*;

verus! {

/// What a power toggle asks of an instance's client.
#[derive(Clone, Copy, Debug, PartialEq, Eq, Structural)]
pub enum PowerAction {
    Enable,
    Disable,
}

/// Status of a widget after its client carried out `action`.
pub open spec fn toggled_message(action: PowerAction) -> Seq<char> {
    match action {
        PowerAction::Disable => "Power disabled"@,
        PowerAction::Enable => "Power enabled"@,
    }
}

/// Error of a power toggle on a widget without client.
pub open spec fn no_client_error() -> Seq<char> {
    "Power supply client is not set"@
}

/// Power Supply Instance Widget: the display state of one instance
#[derive(Clone, Debug)]
pub struct PowerSupplyInstanceWidget {
    /// Name of the power supply instance
    pub instance_name: String,
    /// Whether a client is connected to the instance
    pub connected: bool,
    /// Current power state (output enable)
    pub power_state: bool,
    /// Current voltage value
    pub voltage: String,
    /// Current current value
    pub current: String,
    /// Status message for this instance
    pub status_message: String,
}

impl PowerSupplyInstanceWidget {
    /// Create a new power supply instance widget
    pub fn new(instance_name: String) -> (w: Self)
        ensures
            w.instance_name == instance_name,
            !w.connected,
            !w.power_state,
            w.voltage@ == "0.00V"@,
            w.current@ == "0.00A"@,
            w.status_message@ == "Initializing..."@,
    {
        Self {
            instance_name,
            connected: false,
            power_state: false,
            voltage: String::from_str("0.00V"),
            current: String::from_str("0.00A"),
            status_message: String::from_str("Initializing..."),
        }
    }

    /// Mark the widget as connected to its client
    pub fn set_connected(&mut self)
        ensures
            final(self).connected,
            final(self).status_message@ == "Connected"@,
            final(self).instance_name == old(self).instance_name,
            final(self).power_state == old(self).power_state,
            final(self).voltage == old(self).voltage,
            final(self).current == old(self).current,
    {
        self.connected = true;
        self.status_message = String::from_str("Connected");
    }

    /// Update the readings from the client; ignored while not connected
    pub fn update_state(&mut self, power_state: bool, voltage: String, current: String)
        ensures
            old(self).connected ==> final(self).power_state == power_state && final(self).voltage
                == voltage && final(self).current == current,
            !old(self).connected ==> final(self).power_state == old(self).power_state
                && final(self).voltage == old(self).voltage && final(self).current == old(
                self,
            ).current,
            final(self).instance_name == old(self).instance_name,
            final(self).connected == old(self).connected,
            final(self).status_message == old(self).status_message,
    {
        if self.connected {
            self.power_state = power_state;
            self.voltage = voltage;
            self.current = current;
        }
    }

    /// What a toggle asks of the client: disable when on, enable when off,
    /// nothing without a client.
    pub open spec fn toggle_spec(&self) -> Option<PowerAction> {
        if !self.connected {
            None
        } else if self.power_state {
            Some(PowerAction::Disable)
        } else {
            Some(PowerAction::Enable)
        }
    }

    /// The request a power toggle makes
    pub fn toggle_action(&self) -> (r: Option<PowerAction>)
        ensures
            r == self.toggle_spec(),
    {
        if !self.connected {
            None
        } else if self.power_state {
            Some(PowerAction::Disable)
        } else {
            Some(PowerAction::Enable)
        }
    }

    /// Record that the client carried out `action`
    pub fn toggled(&mut self, action: PowerAction)
        ensures
            final(self).status_message@ == toggled_message(action),
            final(self).instance_name == old(self).instance_name,
            final(self).connected == old(self).connected,
            final(self).power_state == old(self).power_state,
            final(self).voltage == old(self).voltage,
            final(self).current == old(self).current,
    {
        match action {
            PowerAction::Disable => self.status_message = String::from_str("Power disabled"),
            PowerAction::Enable => self.status_message = String::from_str("Power enabled"),
        }
    }
}

/// Application state for the TUI
#[derive(Debug)]
pub struct App {
    /// Whether the application should quit
    should_quit: bool,
    /// Power supply instance widgets
    widgets: Vec<PowerSupplyInstanceWidget>,
    /// Currently selected widget index
    selected_widget: usize,
    /// Global status message
    status_message: String,
}

impl App {
    /// The widgets, in order.
    pub closed spec fn widgets_spec(&self) -> Seq<PowerSupplyInstanceWidget> {
        self.widgets@
    }

    /// The global status message.
    pub closed spec fn status(&self) -> Seq<char> {
        self.status_message@
    }

    /// The widgets
    pub fn widgets(&self) -> (r: &Vec<PowerSupplyInstanceWidget>)
        ensures
            r@ == self.widgets_spec(),
    {
        &self.widgets
    }

    /// The global status message
    pub fn status_message(&self) -> (r: &str)
        ensures
            r@ == self.status(),
    {
        self.status_message.as_str()
    }

    /// Update the readings of widget `index` from its client
    pub fn update_widget(&mut self, index: usize, power_state: bool, voltage: String, current: String)
        requires
            old(self).wf(),
            index < old(self).widgets_spec().len(),
        ensures
            final(self).wf(),
            final(self).selected() == old(self).selected(),
            final(self).quitting() == old(self).quitting(),
            final(self).status() == old(self).status(),
            final(self).widgets_spec() == old(self).widgets_spec().update(index as int, {
                let w = old(self).widgets_spec()[index as int];
                if w.connected {
                    PowerSupplyInstanceWidget { power_state, voltage, current, ..w }
                } else {
                    w
                }
            }),
    {
        let mut w = PowerSupplyInstanceWidget::new(String::new());
        self.widgets.set_and_swap(index, &mut w);
        w.update_state(power_state, voltage, current);
        self.widgets.set(index, w);
        assert(self.widgets@ =~= old(self).widgets@.update(index as int, self.widgets@[index as int]));
    }

    /// The selection points at a widget, or at 0 when there is none.
    pub closed spec fn wf(&self) -> bool {
        self.selected_widget < self.widgets.len() || (self.widgets.len() == 0
            && self.selected_widget == 0)
    }

    /// Whether the application quits.
    pub closed spec fn quitting(&self) -> bool {
        self.should_quit
    }

    /// Index of the selected widget.
    pub closed spec fn selected(&self) -> int {
        self.selected_widget as int
    }

    /// Create a new application instance with power supply instances
    pub fn new(instance_names: Vec<String>) -> (app: Self)
        ensures
            app.wf(),
            !app.quitting(),
            app.selected() == 0,
            app.widgets_spec().len() == instance_names.len(),
            forall|i: int| 0 <= i < instance_names.len() ==> #[trigger] app.widgets_spec()[i].instance_name
                == instance_names[i] && !app.widgets_spec()[i].connected && !app.widgets_spec()[i].power_state
                && app.widgets_spec()[i].voltage@ == "0.00V"@ && app.widgets_spec()[i].current@ == "0.00A"@
                && app.widgets_spec()[i].status_message@ == "Initializing..."@,
            app.status() == "Initializing..."@,
    {
        let mut widgets: Vec<PowerSupplyInstanceWidget> = Vec::new();
        let mut i: usize = 0;
        while i < instance_names.len()
            invariant
                i <= instance_names.len(),
                widgets.len() == i,
                forall|k: int| 0 <= k < i ==> #[trigger] widgets[k].instance_name == instance_names[k]
                    && !widgets[k].connected && !widgets[k].power_state && widgets[k].voltage@ == "0.00V"@
                    && widgets[k].current@ == "0.00A"@ && widgets[k].status_message@ == "Initializing..."@,
            decreases instance_names.len() - i,
        {
            widgets.push(PowerSupplyInstanceWidget::new(instance_names[i].clone()));
            i = i + 1;
        }
        Self {
            should_quit: false,
            widgets,
            selected_widget: 0,
            status_message: String::from_str("Initializing..."),
        }
    }

    /// Check if the application should quit
    pub fn should_quit(&self) -> (r: bool)
        ensures
            r == self.quitting(),
    {
        self.should_quit
    }

    /// Index of the selected widget
    pub fn selected_widget(&self) -> (r: usize)
        ensures
            r == self.selected(),
    {
        self.selected_widget
    }

    /// Handle keyboard input events: `q`/Esc quit, space/Enter announce a
    /// power toggle, Up/Down move the selection within the widgets
    pub fn handle_input(&mut self, key: Key)
        requires
            old(self).wf(),
        ensures
            final(self).wf(),
            final(self).quitting() == (old(self).quitting() || key == Key::Char('q') || key == Key::Esc),
            final(self).widgets_spec() == old(self).widgets_spec(),
            final(self).selected() == match key {
                Key::Up => if old(self).selected() > 0 {
                    old(self).selected() - 1
                } else {
                    old(self).selected()
                },
                Key::Down => if old(self).selected() + 1 < old(self).widgets_spec().len() {
                    old(self).selected() + 1
                } else {
                    old(self).selected()
                },
                _ => old(self).selected(),
            },
            (key == Key::Char(' ') || key == Key::Enter) && old(self).widgets_spec().len() > 0
                ==> final(self).status() == "Toggling power..."@,
            !((key == Key::Char(' ') || key == Key::Enter) && old(self).widgets_spec().len() > 0)
                ==> final(self).status() == old(self).status(),
    {
        match key {
            Key::Char(c) => {
                if c == 'q' {
                    self.should_quit = true;
                } else if c == ' ' {
                    if self.widgets.len() > 0 {
                        self.status_message = String::from_str("Toggling power...");
                    }
                }
            },
            Key::Esc => {
                self.should_quit = true;
            },
            Key::Enter => {
                if self.widgets.len() > 0 {
                    self.status_message = String::from_str("Toggling power...");
                }
            },
            Key::Up => {
                if self.selected_widget > 0 {
                    self.selected_widget = self.selected_widget - 1;
                }
            },
            Key::Down => {
                if self.selected_widget < self.widgets.len().saturating_sub(1) {
                    self.selected_widget = self.selected_widget + 1;
                }
            },
            _ => {},
        }
    }

    /// Mark widget `index` as connected to its client
    pub fn client_connected(&mut self, index: usize)
        requires
            old(self).wf(),
            index < old(self).widgets_spec().len(),
        ensures
            final(self).wf(),
            final(self).selected() == old(self).selected(),
            final(self).quitting() == old(self).quitting(),
            final(self).status() == old(self).status(),
            final(self).widgets_spec().len() == old(self).widgets_spec().len(),
            final(self).widgets_spec()[index as int].connected,
            final(self).widgets_spec()[index as int].status_message@ == "Connected"@,
            final(self).widgets_spec()[index as int].instance_name == old(self).widgets_spec()[index as int].instance_name,
            final(self).widgets_spec()[index as int].power_state == old(self).widgets_spec()[index as int].power_state,
            final(self).widgets_spec()[index as int].voltage == old(self).widgets_spec()[index as int].voltage,
            final(self).widgets_spec()[index as int].current == old(self).widgets_spec()[index as int].current,
            forall|i: int| 0 <= i < old(self).widgets_spec().len() && i != index ==> #[trigger] final(self).widgets_spec()[i]
                == old(self).widgets_spec()[i],
    {
        let mut w = PowerSupplyInstanceWidget::new(String::new());
        self.widgets.set_and_swap(index, &mut w);
        w.set_connected();
        self.widgets.set(index, w);
    }

    /// Record that every client is connected
    pub fn all_connected(&mut self)
        ensures
            final(self).status() == "Connected to all power supplies"@,
            final(self).widgets_spec() == old(self).widgets_spec(),
            final(self).selected() == old(self).selected(),
            final(self).quitting() == old(self).quitting(),
    {
        self.status_message = String::from_str("Connected to all power supplies");
    }

    /// What a power toggle asks of the selected widget's client: `None`
    /// when there is no widget, an error when the widget has no client
    pub fn power_toggle_request(&self) -> (r: Option<Result<PowerAction, String>>)
        requires
            self.wf(),
        ensures
            self.widgets_spec().len() == 0 ==> r is None,
            self.widgets_spec().len() > 0 ==> match self.widgets_spec()[self.selected()].toggle_spec() {
                Some(action) => r == Some(Ok::<PowerAction, String>(action)),
                None => r matches Some(Err(e)) && e@ == no_client_error(),
            },
    {
        if self.selected_widget < self.widgets.len() {
            match self.widgets[self.selected_widget].toggle_action() {
                Some(action) => Some(Ok(action)),
                None => Some(Err(String::from_str("Power supply client is not set"))),
            }
        } else {
            None
        }
    }

    /// Title shown above the widgets
    pub fn title_text(&self) -> (r: &'static str)
        ensures
            r@ == if self.widgets_spec().len() == 0 {
                "No Power Supply Instances Available"@
            } else {
                "All Power Supply Instances"@
            },
    {
        if self.widgets.len() == 0 {
            "No Power Supply Instances Available"
        } else {
            "All Power Supply Instances"
        }
    }

    /// Key help shown at the bottom
    pub fn help_text(&self) -> (r: &'static str)
        ensures
            r@ == if self.widgets_spec().len() == 0 {
                "q/Esc: Quit"@
            } else {
                "q/Esc: Quit | \u{2191}/\u{2193}: Navigate | Space/Enter: Toggle Power"@
            },
    {
        if self.widgets.len() == 0 {
            "q/Esc: Quit"
        } else {
            "q/Esc: Quit | \u{2191}/\u{2193}: Navigate | Space/Enter: Toggle Power"
        }
    }

    /// Share of the width, in percent, given to each widget
    pub fn widget_percentage(&self) -> (r: u16)
        ensures
            self.widgets_spec().len() == 0 ==> r == 100,
            self.widgets_spec().len() > 0 ==> r == 100nat / self.widgets_spec().len(),
    {
        let n = self.widgets.len();
        if n == 0 {
            100
        } else if n > 100 {
            assert(100nat / (n as nat) == 0) by (nonlinear_arith)
                requires
                    n > 100,
            ;
            0
        } else {
            assert(100nat / (n as nat) <= 100) by (nonlinear_arith)
                requires
                    n >= 1,
            ;
            (100 / n) as u16
        }
    }

    /// Record the outcome of a power toggle of the selected widget: on
    /// success the widget reports the action and the status names it; on
    /// failure the status gives the error
    pub fn finish_power_toggle(&mut self, outcome: Result<(), String>)
        requires
            old(self).wf(),
        ensures
            final(self).wf(),
            final(self).selected() == old(self).selected(),
            final(self).quitting() == old(self).quitting(),
            final(self).widgets_spec().len() == old(self).widgets_spec().len(),
            old(self).widgets_spec().len() == 0 ==> final(self).status() == old(self).status(),
            old(self).widgets_spec().len() > 0 ==> match outcome {
                Ok(_) => final(self).status() == "Toggled power for "@
                    + old(self).widgets_spec()[old(self).selected()].instance_name@,
                Err(e) => final(self).status() == "Error toggling power: "@ + e@,
            },
            old(self).widgets_spec().len() > 0 ==> ({
                let w = old(self).widgets_spec()[old(self).selected()];
                let w2 = final(self).widgets_spec()[old(self).selected()];
                match (outcome, w.toggle_spec()) {
                    (Ok(_), Some(action)) => w2.status_message@ == toggled_message(action)
                        && w2.instance_name == w.instance_name && w2.connected == w.connected
                        && w2.power_state == w.power_state && w2.voltage == w.voltage
                        && w2.current == w.current,
                    _ => w2 == w,
                }
            }),
            forall|i: int| 0 <= i < old(self).widgets_spec().len() && i != old(self).selected()
                ==> #[trigger] final(self).widgets_spec()[i] == old(self).widgets_spec()[i],
    {
        if self.selected_widget < self.widgets.len() {
            match outcome {
                Ok(_) => {
                    let index = self.selected_widget;
                    let mut w = PowerSupplyInstanceWidget::new(String::new());
                    self.widgets.set_and_swap(index, &mut w);
                    match w.toggle_action() {
                        Some(action) => w.toggled(action),
                        None => {},
                    }
                    let msg = String::from_str("Toggled power for ").concat(w.instance_name.as_str());
                    self.widgets.set(index, w);
                    self.status_message = msg;
                },
                Err(e) => {
                    self.status_message = String::from_str("Error toggling power: ").concat(e.as_str());
                },
            }
        }
    }
}

/// Message when the client of instance `name` cannot be built
pub fn connection_error_message(name: &str, error: &str) -> (r: String)
    ensures
        r@ == "Failed to connect to power supply instance '"@ + name@ + "': "@ + error@,
{
    String::from_str("Failed to connect to power supply instance '").concat(name).concat("': ").concat(
        error,
    )
}

} // verus!
