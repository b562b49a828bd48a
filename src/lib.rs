//! The core of a graphical greeter for the greetd login daemon.
//!
//! `client` holds the connection states, `driver` runs one login attempt
//! over them, and `bridge` decides what the user sees and what goes back to
//! the driver. `indicator`, `change_detector` and `config` hold the state of
//! the front end's input widget, a change-tracking cell, and the settings.
//! Every transition is a function from state and event to state and action;
//! the program around the library moves the bytes and runs the tasks.
pub mod wire;
pub mod client;
pub mod driver;
pub mod bridge;
pub mod input_line;
pub mod indicator;
pub mod change_detector;
pub mod config;
