//! A bloom demonstration with a main menu, as data and decisions.
//!
//! The host engine owns the window, the frame loop and the entities. This
//! library holds what the application itself decides: which state it is in,
//! how a menu button looks and what it triggers, and what the screens hold.

pub mod color;
pub mod game;
pub mod input;
pub mod main_menu;
pub mod state;
pub mod ui;

pub use state::AppState;
