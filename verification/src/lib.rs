//! Installs a git hook dispatcher into a repository.
//!
//! The crate holds the configuration of an installation, the decisions that
//! an installation takes step by step, and a model of what a completed
//! installation leaves behind. Running the version-control tool and touching
//! the filesystem is left to the caller, which performs each [`Action`] and
//! reports its [`Outcome`].

pub mod artifacts;
pub mod config;
pub mod install;
pub mod laws;
pub mod paths;
pub mod text;
pub mod world;

pub use config::{Sloughi, SloughiView};
pub use install::{Action, Diagnostic, Install, InstallError, InstallView, Outcome, Phase};
