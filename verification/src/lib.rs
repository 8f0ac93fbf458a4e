//! Process lifecycle core: the state machine, the event model and the
//! decisions that turn what the operating system reports into the events a
//! caller observes and the result it receives.

pub mod decimal;
pub mod error;
pub mod event;
pub mod execution;
pub mod ffi;
pub mod kill;
pub mod machine;
pub mod task;

pub use error::AerError;
pub use event::{Event, ExitReason};
pub use machine::State;
pub use task::Task;
