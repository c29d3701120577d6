//! Launching a second, independent copy of the running application.
//!
//! The library decides; it makes no call to the operating system. Its caller
//! looks up the path of the running executable and hands the system's answer to
//! [`begin_launch`], creates the process that it is told to create, and hands
//! the system's answer to [`finish_launch`], which gives the [`LaunchOutcome`]
//! to display.

pub mod command;
pub mod decimal;
pub mod launcher;
pub mod message;
pub mod outcome;
pub mod platform;

pub use command::{Argument, Program, SpawnRequest};
pub use launcher::{
    begin_launch, conclude_spawn, finish_launch, plan_launch, select_strategy, Step,
};
pub use message::greet;
pub use outcome::{LaunchError, LaunchOutcome};
pub use platform::{Console, Platform, CREATE_NEW_CONSOLE};
