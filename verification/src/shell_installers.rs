//! Tools that are installed by a script of their own.

use crate::rustup::{install_rustup, InstallerRun, InstallerRunView};
use vstd::prelude::*;

verus! {

/// A tool that is installed by a script of its own.
#[derive(Debug, Clone, Copy, PartialEq, Eq, Structural)]
pub enum ShellInstaller {
    Rustup,
}

impl ShellInstaller {
    /// Begins the installation of the tool.
    pub fn install(&self) -> (run: InstallerRun)
        ensures
            run@ == InstallerRunView::initial(),
            run@.wf(),
    {
        match self {
            ShellInstaller::Rustup => install_rustup(),
        }
    }
}

} // verus!
