//! Core logic of the keep-awake tray tool: configuration file format,
//! command-line parsing, status texts, the keep-alive timer state machine
//! and the brightness report, each with a machine-checked contract.

pub mod text;
pub mod lang;
pub mod config;
pub mod power;
pub mod clock;
pub mod status;
pub mod timer;
pub mod brightness;
pub mod cli;
pub mod settings;
pub mod sizes;
