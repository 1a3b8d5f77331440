//! What can go wrong while the machine is brought to its declared state.

use vstd::prelude::*;

verus! {

/// A failure of the run.
#[derive(Debug, Clone, PartialEq, Eq)]
pub enum SetupError {
    /// The package manager is not installed or not on the search path.
    BrewNotFound,
    /// A required program is not installed or not on the search path.
    ProgramFileNotFound(String),
    /// The package manager failed to install a package.
    BrewInstallFailed,
    /// The app store tool failed to install an app.
    MasInstallFailed,
    /// An installation failed; the text says which.
    InstallFailed(String),
    /// A dotfile could not be linked; the text says why.
    DotfileError(String),
    /// The system refused an operation; the text is its message.
    IoError(String),
    /// A line of a report did not have the expected shape; the text is the
    /// line.
    ParseError(String),
    /// A program that was asked what is there exited with a failure; the
    /// text is what it wrote to its standard error.
    QueryFailed(String),
    /// A program's output was not UTF-8.
    Utf8Error,
}

/// `SetupError` with its texts as sequences of characters.
pub enum SetupErrorView {
    BrewNotFound,
    ProgramFileNotFound(Seq<char>),
    BrewInstallFailed,
    MasInstallFailed,
    InstallFailed(Seq<char>),
    DotfileError(Seq<char>),
    IoError(Seq<char>),
    ParseError(Seq<char>),
    QueryFailed(Seq<char>),
    Utf8Error,
}

impl View for SetupError {
    type V = SetupErrorView;

    open spec fn view(&self) -> SetupErrorView {
        match self {
            SetupError::BrewNotFound => SetupErrorView::BrewNotFound,
            SetupError::ProgramFileNotFound(s) => SetupErrorView::ProgramFileNotFound(s@),
            SetupError::BrewInstallFailed => SetupErrorView::BrewInstallFailed,
            SetupError::MasInstallFailed => SetupErrorView::MasInstallFailed,
            SetupError::InstallFailed(s) => SetupErrorView::InstallFailed(s@),
            SetupError::DotfileError(s) => SetupErrorView::DotfileError(s@),
            SetupError::IoError(s) => SetupErrorView::IoError(s@),
            SetupError::ParseError(s) => SetupErrorView::ParseError(s@),
            SetupError::QueryFailed(s) => SetupErrorView::QueryFailed(s@),
            SetupError::Utf8Error => SetupErrorView::Utf8Error,
        }
    }
}

impl SetupError {
    /// A copy of the error.
    pub fn duplicate(&self) -> (r: SetupError)
        ensures
            r@ == self@,
    {
        match self {
            SetupError::BrewNotFound => SetupError::BrewNotFound,
            SetupError::ProgramFileNotFound(s) => SetupError::ProgramFileNotFound(s.clone()),
            SetupError::BrewInstallFailed => SetupError::BrewInstallFailed,
            SetupError::MasInstallFailed => SetupError::MasInstallFailed,
            SetupError::InstallFailed(s) => SetupError::InstallFailed(s.clone()),
            SetupError::DotfileError(s) => SetupError::DotfileError(s.clone()),
            SetupError::IoError(s) => SetupError::IoError(s.clone()),
            SetupError::ParseError(s) => SetupError::ParseError(s.clone()),
            SetupError::QueryFailed(s) => SetupError::QueryFailed(s.clone()),
            SetupError::Utf8Error => SetupError::Utf8Error,
        }
    }
}

} // verus!
