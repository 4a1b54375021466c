//! Human Exception: the resistance console and its headless runner.

pub mod cli;
pub mod console;
pub mod lua_controller;
pub mod satellite;
pub mod simulation;
pub mod text;

pub use lua_controller::TickRecord;
pub use satellite::render_satellite_view;
pub use simulation::{Action, FailureReason, SimEvent, TickOutcome};
