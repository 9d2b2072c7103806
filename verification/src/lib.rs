//! Rule-driven keyboard layout switching.
//!
//! The library decides, from the frontmost application's name, a set of
//! configured rules and a description of the currently selected keyboard
//! layout, whether the layout should be switched and to which target. The
//! operating-system calls that enumerate and select input sources, observe
//! application changes and read or write the configuration file live outside
//! the library; everything that decides or computes is verified here.

pub mod config;
pub mod matcher;
pub mod monitor;
pub mod rules;
pub mod service;
pub mod state;
pub mod switcher;
pub mod text;

pub use matcher::is_target_layout;
