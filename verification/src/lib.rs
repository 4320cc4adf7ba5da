//! Runtime core for terminal user interfaces: one loop that merges timer
//! pulses, terminal input and internal commands into a single ordered stream
//! of events and dispatches them through a small hierarchy of screens.
//!
//! The core is a state machine. The program around it performs the effects
//! (entering and leaving the terminal mode, waiting, drawing) and reports what
//! happened; every decision is taken here and verified. The command bus is
//! tokio's unbounded channel, whose behaviour is assumed as its methods
//! document it.

pub mod key;
pub mod event;
pub mod error;
pub mod bus;
pub mod clock;
pub mod screens;
pub mod screen_manager;
pub mod app;
pub mod laws;

pub use app::{Action, App, AppState, Arrival, Phase, Signal};
pub use bus::CommandBus;
pub use clock::Clock;
pub use error::Error;
pub use event::{Command, Event, Tab};
pub use key::{Key, KeyKind, RawInput};
pub use screen_manager::ScreenManager;
pub use screens::{Area, DrawCall, Eventful, Main, Renderable, Screen, TabOne, TabTwo};
