//! Programs to run and what came of running them.
//!
//! The library never starts a program. It hands its caller a [`Command`] and
//! takes back an [`Execution`], which says whether the program could be
//! started and, if so, how it exited and what it printed.

use crate::errors::{SetupError, SetupErrorView};
use crate::model::{option_view, result_view, views};
use crate::text::{lines, split_lines, trim, trim_str};
use vstd::prelude::*;
use vstd::string::StringSliceAdditionalSpecFns;
use vstd::utf8::{decode_utf8, valid_utf8};

verus! {

/// A program and its arguments.
#[derive(Debug, Clone, PartialEq, Eq)]
pub struct Command {
    pub program: String,
    pub args: Vec<String>,
}

/// `Command` with its texts as sequences of characters.
pub struct CommandView {
    pub program: Seq<char>,
    pub args: Seq<Seq<char>>,
}

impl View for Command {
    type V = CommandView;

    open spec fn view(&self) -> CommandView {
        CommandView { program: self.program@, args: views(self.args@) }
    }
}

impl CommandView {
    /// The command with one more argument.
    pub open spec fn arg(self, a: Seq<char>) -> CommandView {
        CommandView { program: self.program, args: self.args.push(a) }
    }

    /// The command that runs `program` without arguments.
    pub open spec fn of(program: Seq<char>) -> CommandView {
        CommandView { program, args: Seq::empty() }
    }
}

impl Command {
    /// The command that runs `program` without arguments.
    pub fn new(program: &str) -> (r: Command)
        ensures
            r@ == CommandView::of(program@),
    {
        let r = Command { program: program.to_owned(), args: Vec::new() };
        assert(r@.args =~= Seq::<Seq<char>>::empty());
        r
    }

    /// A copy of the command.
    pub fn duplicate(&self) -> (r: Command)
        ensures
            r@ == self@,
    {
        let mut args: Vec<String> = Vec::new();
        let mut i: usize = 0;
        while i < self.args.len()
            invariant
                i <= self.args.len(),
                args@.len() == i,
                forall|j: int| 0 <= j < i ==> (#[trigger] args@[j])@ == self.args@[j]@,
            decreases self.args.len() - i,
        {
            args.push(self.args[i].clone());
            i = i + 1;
        }
        let r = Command { program: self.program.clone(), args };
        assert(r@.args =~= self@.args);
        r
    }

    /// The command with one more argument.
    pub fn arg(self, a: &str) -> (r: Command)
        ensures
            r@ == self@.arg(a@),
    {
        let mut args = self.args;
        let ghost before = args@;
        args.push(a.to_owned());
        let r = Command { program: self.program, args };
        assert(r@.args =~= views(before).push(a@));
        r
    }
}

/// How a program exited and what it printed.
#[derive(Debug, Clone, PartialEq, Eq)]
pub struct CommandOutput {
    /// Whether the exit status was zero.
    pub success: bool,
    /// What the program wrote to its standard output.
    pub stdout: Vec<u8>,
    /// What the program wrote to its standard error.
    pub stderr: Vec<u8>,
}

/// What came of running a program.
#[derive(Debug, Clone, PartialEq, Eq)]
pub enum Execution {
    /// The program could not be started; the text is the system's message.
    NotStarted(String),
    /// The program ran and exited.
    Exited(CommandOutput),
}

/// `Execution` as a value of mathematics.
pub enum ExecutionView {
    NotStarted(Seq<char>),
    Exited { success: bool, stdout: Seq<u8>, stderr: Seq<u8> },
}

impl View for Execution {
    type V = ExecutionView;

    open spec fn view(&self) -> ExecutionView {
        match self {
            Execution::NotStarted(m) => ExecutionView::NotStarted(m@),
            Execution::Exited(o) => ExecutionView::Exited {
                success: o.success,
                stdout: o.stdout@,
                stderr: o.stderr@,
            },
        }
    }
}

/// The error that `core::str::from_utf8` returns. Nothing is stated of what
/// it holds.
#[verifier::external_type_specification]
#[verifier::external_body]
pub struct ExUtf8Error(core::str::Utf8Error);

/// Calls `core::str::from_utf8`: the bytes are accepted exactly when they
/// are well-formed UTF-8, and the string returned is made of these bytes.
#[verifier::external_body]
fn str_from_utf8(bytes: &[u8]) -> (r: Result<&str, core::str::Utf8Error>)
    ensures
        r is Ok <==> valid_utf8(bytes@),
        r matches Ok(s) ==> s.spec_bytes() == bytes@,
{
    core::str::from_utf8(bytes)
}

/// The text that `bytes` encode; none where they are not UTF-8.
pub open spec fn decoded(bytes: Seq<u8>) -> Option<Seq<char>> {
    if valid_utf8(bytes) {
        Some(decode_utf8(bytes))
    } else {
        None
    }
}

/// Decodes `bytes` as UTF-8.
pub fn decode(bytes: &[u8]) -> (r: Option<String>)
    ensures
        option_view(r) == decoded(bytes@),
{
    match str_from_utf8(bytes) {
        Ok(s) => {
            proof {
                vstd::utf8::encode_utf8_decode_utf8(s@);
            }
            Some(s.to_owned())
        },
        Err(_) => None,
    }
}

/// The command that asks the shell where `program` is.
pub open spec fn probe_of(program: Seq<char>) -> CommandView {
    CommandView::of("command"@).arg("-v"@).arg(program)
}

/// The command that asks the shell where `program` is.
pub fn probe(program: &str) -> (r: Command)
    ensures
        r@ == probe_of(program@),
{
    Command::new("command").arg("-v").arg(program)
}

/// Where `program` is, from what came of its probe: the path that the probe
/// printed, without the white space around it. A probe that could not be
/// started is an `IoError`; one that exited with a failure means that the
/// program is not there.
pub open spec fn located(program: Seq<char>, found: ExecutionView) -> Result<
    Seq<char>,
    SetupErrorView,
> {
    match found {
        ExecutionView::NotStarted(m) => Err(SetupErrorView::IoError(m)),
        ExecutionView::Exited { success, stdout, .. } => if !success {
            Err(SetupErrorView::ProgramFileNotFound(program))
        } else {
            match decoded(stdout) {
                Some(text) => Ok(trim(text)),
                None => Err(SetupErrorView::Utf8Error),
            }
        },
    }
}

/// Tells where `program` is, from what came of running its probe.
pub fn command(program: &str, found: &Execution) -> (r: Result<String, SetupError>)
    ensures
        result_view(r) == located(program@, found@),
{
    match found {
        Execution::NotStarted(m) => Err(SetupError::IoError(m.clone())),
        Execution::Exited(output) => {
            if !output.success {
                Err(SetupError::ProgramFileNotFound(program.to_owned()))
            } else {
                match decode(output.stdout.as_slice()) {
                    Some(text) => Ok(trim_str(text.as_str())),
                    None => Err(SetupError::Utf8Error),
                }
            }
        },
    }
}

/// The lines that a program printed. A program that could not be started
/// is an `IoError`. One that exited with a failure is a `QueryFailed` that
/// holds what it wrote to its standard error, and nothing is made of what it
/// printed. Output that is not UTF-8 is a `Utf8Error`.
pub open spec fn printed_lines(listing: ExecutionView) -> Result<Seq<Seq<char>>, SetupErrorView> {
    match listing {
        ExecutionView::NotStarted(m) => Err(SetupErrorView::IoError(m)),
        ExecutionView::Exited { success, stdout, stderr } => if !success {
            match decoded(stderr) {
                Some(text) => Err(SetupErrorView::QueryFailed(text)),
                None => Err(SetupErrorView::Utf8Error),
            }
        } else {
            match decoded(stdout) {
                Some(text) => Ok(lines(text)),
                None => Err(SetupErrorView::Utf8Error),
            }
        },
    }
}

/// Reads the lines that a program printed.
pub fn read_lines(listing: &Execution) -> (r: Result<Vec<String>, SetupError>)
    ensures
        match printed_lines(listing@) {
            Ok(all) => r matches Ok(v) && views(v@) == all,
            Err(e) => r matches Err(x) && x@ == e,
        },
{
    match listing {
        Execution::NotStarted(m) => Err(SetupError::IoError(m.clone())),
        Execution::Exited(output) => {
            if !output.success {
                return match decode(output.stderr.as_slice()) {
                    Some(text) => Err(SetupError::QueryFailed(text)),
                    None => Err(SetupError::Utf8Error),
                };
            }
            match decode(output.stdout.as_slice()) {
                None => Err(SetupError::Utf8Error),
                Some(text) => Ok(split_lines(text.as_str())),
            }
        },
    }
}

} // verus!
