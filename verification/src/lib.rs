//! Reconciliation core of a declarative host-configuration tool.
//!
//! The library compares what is declared with what is there and decides
//! what has to change. It never touches the machine itself: it hands its
//! caller commands to run and questions about the file system, and takes the
//! answers back.

pub mod brew;
pub mod decimal;
pub mod defaults;
pub mod dotfiles;
pub mod errors;
pub mod macos;
pub mod mas;
pub mod model;
pub mod paths;
pub mod reconcile;
pub mod rustup;
pub mod shell_installers;
pub mod system;
pub mod system_utils;
pub mod text;
pub mod vscode;
