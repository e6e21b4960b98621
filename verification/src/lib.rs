//! Control and monitoring logic of a Panduza power supply server: MQTT topic
//! naming and routing, runner status handling, configuration rules, driver
//! lookup and the terminal front-end state machines.

pub mod constants;
pub mod text;
pub mod topics;
pub mod server;
pub mod tui;
