//! MQTT side of a power supply runner: topic suffixes, command routing,
//! status handling and error replies.

pub mod command_handler;
pub mod dispatch;
pub mod runner;
pub mod topic_suffix;

pub use command_handler::CommandHandler;
