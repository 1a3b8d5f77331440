//! The installer of the Rust toolchain manager.
//!
//! The run asks the shell where `rustup` is, then whether that path exists,
//! and starts the installer only where it does not.

use crate::errors::{SetupError, SetupErrorView};
use crate::model::option_view;
use crate::system_utils::{command, located, probe, probe_of, Command, CommandView, Execution, ExecutionView};
use vstd::prelude::*;

verus! {

/// What the run asks its caller to do.
#[derive(Debug, Clone, PartialEq, Eq)]
pub enum InstallerRequest {
    /// Run the command.
    Run(Command),
    /// Tell whether the path exists.
    Exists(String),
}

/// `InstallerRequest` as a value of mathematics.
pub enum InstallerRequestView {
    Run(CommandView),
    Exists(Seq<char>),
}

impl View for InstallerRequest {
    type V = InstallerRequestView;

    open spec fn view(&self) -> InstallerRequestView {
        match self {
            InstallerRequest::Run(c) => InstallerRequestView::Run(c@),
            InstallerRequest::Exists(p) => InstallerRequestView::Exists(p@),
        }
    }
}

/// What the caller answers.
#[derive(Debug, Clone, PartialEq, Eq)]
pub enum InstallerReply {
    /// What came of the command.
    Ran(Execution),
    /// Whether the path exists.
    Exists(bool),
}

/// `InstallerReply` as a value of mathematics.
pub enum InstallerReplyView {
    Ran(ExecutionView),
    Exists(bool),
}

impl View for InstallerReply {
    type V = InstallerReplyView;

    open spec fn view(&self) -> InstallerReplyView {
        match self {
            InstallerReply::Ran(e) => InstallerReplyView::Ran(e@),
            InstallerReply::Exists(b) => InstallerReplyView::Exists(*b),
        }
    }
}

/// Where the run stands.
#[derive(Debug, Clone, Copy, PartialEq, Eq, Structural)]
pub enum InstallerPhase {
    /// Asking the shell where the program is.
    Probe,
    /// Asking whether the path that the shell named exists.
    Check,
    /// Running the installer.
    Install,
    /// Nothing is left to do, or the run has failed.
    Finished,
}

/// The command that downloads and runs the installer.
pub open spec fn installer_command_of() -> CommandView {
    CommandView::of("curl"@).arg("--proto"@).arg("'=https'"@).arg("--tlsv1.2"@).arg("-sSf"@).arg(
        "https://sh.rustup.rs"@,
    ).arg("|"@).arg("sh"@).arg("-s"@).arg("--"@).arg("-y"@)
}

/// The command that downloads and runs the installer.
pub fn installer_command() -> (r: Command)
    ensures
        r@ == installer_command_of(),
{
    Command::new("curl").arg("--proto").arg("'=https'").arg("--tlsv1.2").arg("-sSf").arg(
        "https://sh.rustup.rs",
    ).arg("|").arg("sh").arg("-s").arg("--").arg("-y")
}

/// The state of the run, as a value of mathematics.
pub struct InstallerRunView {
    /// Where the run stands.
    pub phase: InstallerPhase,
    /// The path that the shell named.
    pub path: Option<Seq<char>>,
    /// The error that ended the run.
    pub error: Option<SetupErrorView>,
}

impl InstallerRunView {
    /// The state in which the run begins.
    pub open spec fn initial() -> InstallerRunView {
        InstallerRunView { phase: InstallerPhase::Probe, path: None, error: None }
    }

    /// What always holds of the run.
    pub open spec fn wf(self) -> bool {
        &&& self.phase == InstallerPhase::Check ==> self.path is Some
        &&& self.error is Some ==> self.phase == InstallerPhase::Finished
    }

    /// What the run asks for next; nothing once it has finished.
    pub open spec fn request(self) -> Option<InstallerRequestView> {
        match self.phase {
            InstallerPhase::Probe => Some(InstallerRequestView::Run(probe_of("rustup"@))),
            InstallerPhase::Check => Some(InstallerRequestView::Exists(self.path->0)),
            InstallerPhase::Install => Some(InstallerRequestView::Run(installer_command_of())),
            InstallerPhase::Finished => None,
        }
    }

    /// Whether `reply` answers what the run asks for.
    pub open spec fn awaits(self, reply: InstallerReplyView) -> bool {
        match self.phase {
            InstallerPhase::Probe => reply is Ran,
            InstallerPhase::Check => reply is Exists,
            InstallerPhase::Install => reply is Ran,
            InstallerPhase::Finished => false,
        }
    }

    /// The run, failed with `error`.
    pub open spec fn fail(self, error: SetupErrorView) -> InstallerRunView {
        InstallerRunView { phase: InstallerPhase::Finished, error: Some(error), ..self }
    }

    /// The state after `reply` has come in. A program that the shell does
    /// not find ends the run with the error of the probe; a path that exists
    /// ends it well, with nothing installed; else the installer is run, and
    /// its failure is an `InstallFailed`.
    pub open spec fn step(self, reply: InstallerReplyView) -> InstallerRunView {
        match (self.phase, reply) {
            (InstallerPhase::Probe, InstallerReplyView::Ran(found)) => match located(
                "rustup"@,
                found,
            ) {
                Ok(p) => InstallerRunView { phase: InstallerPhase::Check, path: Some(p), ..self },
                Err(e) => self.fail(e),
            },
            (InstallerPhase::Check, InstallerReplyView::Exists(there)) => if there {
                InstallerRunView { phase: InstallerPhase::Finished, ..self }
            } else {
                InstallerRunView { phase: InstallerPhase::Install, ..self }
            },
            (InstallerPhase::Install, InstallerReplyView::Ran(ran)) => match ran {
                ExecutionView::NotStarted(m) => self.fail(SetupErrorView::IoError(m)),
                ExecutionView::Exited { success, .. } => if success {
                    InstallerRunView { phase: InstallerPhase::Finished, ..self }
                } else {
                    self.fail(SetupErrorView::InstallFailed("rustup installation failed"@))
                },
            },
            _ => self,
        }
    }

    /// How the run ended; nothing while it goes on.
    pub open spec fn outcome(self) -> Option<Result<(), SetupErrorView>> {
        if self.phase != InstallerPhase::Finished {
            None
        } else {
            match self.error {
                Some(e) => Some(Err(e)),
                None => Some(Ok(())),
            }
        }
    }
}

/// The installation of the toolchain manager, one request at a time.
#[derive(Debug)]
pub struct InstallerRun {
    phase: InstallerPhase,
    path: Option<String>,
    error: Option<SetupError>,
}

impl View for InstallerRun {
    type V = InstallerRunView;

    closed spec fn view(&self) -> InstallerRunView {
        InstallerRunView {
            phase: self.phase,
            path: option_view(self.path),
            error: option_view(self.error),
        }
    }
}

/// Begins the installation of the toolchain manager.
pub fn install_rustup() -> (run: InstallerRun)
    ensures
        run@ == InstallerRunView::initial(),
        run@.wf(),
{
    InstallerRun { phase: InstallerPhase::Probe, path: None, error: None }
}

impl InstallerRun {
    /// What the caller has to do next; nothing once the run has finished.
    pub fn pending(&self) -> (r: Option<InstallerRequest>)
        requires
            self@.wf(),
        ensures
            option_view(r) == self@.request(),
    {
        match self.phase {
            InstallerPhase::Probe => Some(InstallerRequest::Run(probe("rustup"))),
            InstallerPhase::Check => match &self.path {
                Some(p) => Some(InstallerRequest::Exists(p.clone())),
                None => None,
            },
            InstallerPhase::Install => Some(InstallerRequest::Run(installer_command())),
            InstallerPhase::Finished => None,
        }
    }

    /// Whether `reply` answers what is pending.
    pub fn accepts(&self, reply: &InstallerReply) -> (r: bool)
        ensures
            r == self@.awaits(reply@),
    {
        match self.phase {
            InstallerPhase::Probe | InstallerPhase::Install => match reply {
                InstallerReply::Ran(_) => true,
                _ => false,
            },
            InstallerPhase::Check => match reply {
                InstallerReply::Exists(_) => true,
                _ => false,
            },
            InstallerPhase::Finished => false,
        }
    }

    /// Whether the run has ended.
    pub fn is_finished(&self) -> (r: bool)
        ensures
            r == (self@.phase == InstallerPhase::Finished),
            r == self@.request() is None,
    {
        match self.phase {
            InstallerPhase::Finished => true,
            _ => false,
        }
    }

    /// How the run ended; nothing while it goes on.
    pub fn outcome(&self) -> (r: Option<Result<(), SetupError>>)
        ensures
            match self@.outcome() {
                None => r is None,
                Some(Ok(())) => r == Some(Ok::<(), SetupError>(())),
                Some(Err(e)) => r matches Some(Err(x)) && x@ == e,
            },
    {
        match self.phase {
            InstallerPhase::Finished => match &self.error {
                Some(e) => Some(Err(e.duplicate())),
                None => Some(Ok(())),
            },
            _ => None,
        }
    }

    /// Takes the answer to what was pending and decides what comes next.
    pub fn advance(&mut self, reply: &InstallerReply)
        requires
            old(self)@.wf(),
            old(self)@.awaits(reply@),
        ensures
            final(self)@ == old(self)@.step(reply@),
            final(self)@.wf(),
    {
        match self.phase {
            InstallerPhase::Probe => {
                if let InstallerReply::Ran(found) = reply {
                    match command("rustup", found) {
                        Ok(p) => {
                            self.path = Some(p);
                            self.phase = InstallerPhase::Check;
                        },
                        Err(e) => {
                            self.phase = InstallerPhase::Finished;
                            self.error = Some(e);
                        },
                    }
                }
            },
            InstallerPhase::Check => {
                if let InstallerReply::Exists(there) = reply {
                    if *there {
                        self.phase = InstallerPhase::Finished;
                    } else {
                        self.phase = InstallerPhase::Install;
                    }
                }
            },
            InstallerPhase::Install => {
                if let InstallerReply::Ran(ran) = reply {
                    self.phase = InstallerPhase::Finished;
                    match ran {
                        Execution::NotStarted(m) => {
                            self.error = Some(SetupError::IoError(m.clone()));
                        },
                        Execution::Exited(output) => {
                            if !output.success {
                                self.error = Some(
                                    SetupError::InstallFailed(
                                        "rustup installation failed".to_owned(),
                                    ),
                                );
                            }
                        },
                    }
                }
            },
            InstallerPhase::Finished => {},
        }
    }
}

/// The installer is started only for a program whose path does not exist:
/// the run asks for the installer only after it was told so, and after any
/// answer to the installer it has finished.
pub proof fn lemma_installer_runs_once_when_absent(run: InstallerRunView, reply: InstallerReplyView)
    requires
        run.wf(),
        run.awaits(reply),
    ensures
        run.step(reply).wf(),
        run.step(reply).phase == InstallerPhase::Install ==> run.phase == InstallerPhase::Check
            && reply == InstallerReplyView::Exists(false),
        run.phase == InstallerPhase::Install ==> run.step(reply).phase == InstallerPhase::Finished,
{
}

} // verus!
