pub mod cli;
pub mod config;
pub mod drivers;
pub mod factory;
pub mod gui;
pub mod instance;
pub mod mqtt;
pub mod services;
pub mod tui;
