//! Startup logic of an application shell: which capability plugins a target
//! platform gets, in which order they are registered, and how the process ends
//! once the host runtime has reported back.

pub mod assembly;
pub mod builder;
pub mod platform;
pub mod plugin;
pub mod startup;

pub use assembly::{assemble, assemble_accumulating};
pub use builder::Builder;
pub use platform::Platform;
pub use plugin::Plugin;
pub use startup::{conclude, run, run_accumulating, Outcome, Termination};
