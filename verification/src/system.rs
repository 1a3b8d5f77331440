//! The declared state of a machine.

use crate::brew::Brew;
use crate::dotfiles::Dotfiles;
use crate::macos::{Dock, Finder, MagicMouse, MissionControl, Safari, SystemSettings};
use crate::mas::Mas;
use crate::shell_installers::ShellInstaller;
use crate::vscode::Vscode;
use vstd::prelude::*;

verus! {

/// Everything that is declared of a machine. A part that is left out is not
/// touched.
#[derive(Debug, Clone, PartialEq, Eq)]
pub struct System {
    /// The wanted packages of the package manager.
    pub brew: Option<Brew>,
    /// The wanted apps of the app store.
    pub mas: Option<Mas>,
    /// The dotfiles to link.
    pub dotfiles: Option<Dotfiles>,
    /// The wanted extensions of the editor.
    pub vscode: Option<Vscode>,
    /// The wanted preferences.
    pub macos: Option<MacOS>,
    /// The tools that are installed by a script of their own.
    pub shell_installers: Option<ShellInstallers>,
}

/// The wanted preferences, by the program that reads them.
#[derive(Debug, Clone, Copy, PartialEq, Eq)]
pub struct MacOS {
    pub dock: Option<Dock>,
    pub safari: Option<Safari>,
    pub system: Option<SystemSettings>,
    pub mission_control: Option<MissionControl>,
    pub magic_mouse: Option<MagicMouse>,
    pub finder: Option<Finder>,
}

/// The tools that are installed by a script of their own, in the order in
/// which they are installed.
#[derive(Debug, Clone, PartialEq, Eq)]
pub struct ShellInstallers {
    pub install: Vec<ShellInstaller>,
}

} // verus!
