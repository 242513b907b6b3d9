//! Decision logic of a trigger that runs one WebAssembly guest the way a CI
//! runner would run a native step: which variables, directories and arguments
//! the guest sees, which of the two guest ABIs an artifact is taken for, and
//! what the driver asks of the engine next.
//!
//! The engine itself, the host process environment and the file system stay
//! outside: callers perform what an action names and report back with an event.

pub mod config;
pub mod driver;
pub mod env;
pub mod error;
pub mod event;
pub mod github;
pub mod guest;
pub mod run;
pub mod selector;

pub use config::{CliArgs, CommandTriggerConfig, Component};
pub use driver::{CommandTrigger, DriverAction, DriverState};
pub use env::{assemble_env, effective_value, get_env_for_component, HostEnv};
pub use error::{SetupStep, TriggerError};
pub use event::Event;
pub use github::{github_env, static_env_vars, static_vol_mounts};
pub use guest::{CommandInstance, CommandInstancePre, WasiVersion};
pub use selector::{SelectorAction, SelectorState};
