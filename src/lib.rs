//! A Pomodoro timer: the session state machine, its history and the settings
//! that drive it, with the decisions it makes stated as contracts.

pub mod application;
pub mod clock;
pub mod config;
pub mod history;
pub mod laws;
pub mod nav;
pub mod phase;
pub mod session;
pub mod settings;
pub mod text;
