use vstd::prelude::*;

verus! {

/// How a process ended: its exit code, or the signal that ended it.
#[derive(Clone, Copy, Debug, PartialEq, Eq, Structural)]
pub struct ExitStatus {
    /// The exit code; `None` where a signal ended the process.
    pub code: Option<i32>,
    /// The signal that ended the process, where one did and it is known.
    pub signal: Option<i32>,
}

impl ExitStatus {
    /// Success is an exit code of zero; a signal is no success.
    pub open spec fn is_success(self) -> bool {
        self.code == Some(0i32)
    }

    pub fn success(&self) -> (r: bool)
        ensures
            r == self.is_success(),
    {
        match self.code {
            Some(c) => c == 0,
            None => false,
        }
    }
}

/// What a process that ran to its end left behind.
#[derive(Clone, Debug, PartialEq, Eq)]
pub struct ProcessOutput {
    pub status: ExitStatus,
    pub stdout: Vec<u8>,
    pub stderr: Vec<u8>,
}

/// How an attempt to run an invocation went.
#[derive(Clone, Debug, PartialEq, Eq)]
pub enum ProcessRun {
    /// The process could not be started, or its output could not be collected.
    SpawnFailed,
    /// The process started, but its standard input could not be obtained.
    StdinOpenFailed,
    /// The request could not be written whole to the standard input.
    StdinWriteFailed,
    /// The process ran to its end.
    Exited(ProcessOutput),
}

/// Why an operation failed.
#[derive(Clone, Debug, PartialEq, Eq)]
pub enum CompilerError {
    /// Neither backend answered its version probe.
    NoCompilerFound,
    ProcessSpawnFailed { command: String },
    ExitStatusNotSuccess { command: String, status: ExitStatus },
    OutputNotUtf8 { command: String },
    OutputEmpty { command: String },
    StdinOpenFailed { command: String },
    StdinWriteFailed { command: String },
}

/// A failure, with its command line as a sequence.
pub enum ErrorView {
    NoCompilerFound,
    ProcessSpawnFailed(Seq<char>),
    ExitStatusNotSuccess(Seq<char>, ExitStatus),
    OutputNotUtf8(Seq<char>),
    OutputEmpty(Seq<char>),
    StdinOpenFailed(Seq<char>),
    StdinWriteFailed(Seq<char>),
}

impl View for CompilerError {
    type V = ErrorView;

    open spec fn view(&self) -> ErrorView {
        match self {
            CompilerError::NoCompilerFound => ErrorView::NoCompilerFound,
            CompilerError::ProcessSpawnFailed { command } => ErrorView::ProcessSpawnFailed(command@),
            CompilerError::ExitStatusNotSuccess { command, status } => ErrorView::ExitStatusNotSuccess(
                command@,
                *status,
            ),
            CompilerError::OutputNotUtf8 { command } => ErrorView::OutputNotUtf8(command@),
            CompilerError::OutputEmpty { command } => ErrorView::OutputEmpty(command@),
            CompilerError::StdinOpenFailed { command } => ErrorView::StdinOpenFailed(command@),
            CompilerError::StdinWriteFailed { command } => ErrorView::StdinWriteFailed(command@),
        }
    }
}

/// The failure that a run of `command` amounts to, or `None` where the process
/// ran and exited with success.
pub open spec fn run_failure(command: Seq<char>, run: ProcessRun) -> Option<ErrorView> {
    match run {
        ProcessRun::SpawnFailed => Some(ErrorView::ProcessSpawnFailed(command)),
        ProcessRun::StdinOpenFailed => Some(ErrorView::StdinOpenFailed(command)),
        ProcessRun::StdinWriteFailed => Some(ErrorView::StdinWriteFailed(command)),
        ProcessRun::Exited(out) => if out.status.is_success() {
            None
        } else {
            Some(ErrorView::ExitStatusNotSuccess(command, out.status))
        },
    }
}

/// Classifies a run of `command`: its output where it exited with success, else
/// the failure it amounts to.
pub fn classify(command: &String, run: ProcessRun) -> (r: Result<ProcessOutput, CompilerError>)
    ensures
        match run_failure(command@, run) {
            Some(e) => r is Err && r->Err_0@ == e,
            None => run is Exited && r == Ok::<ProcessOutput, CompilerError>(run->Exited_0),
        },
{
    match run {
        ProcessRun::SpawnFailed => Err(CompilerError::ProcessSpawnFailed { command: command.clone() }),
        ProcessRun::StdinOpenFailed => Err(CompilerError::StdinOpenFailed { command: command.clone() }),
        ProcessRun::StdinWriteFailed => Err(
            CompilerError::StdinWriteFailed { command: command.clone() },
        ),
        ProcessRun::Exited(out) => {
            if out.status.success() {
                Ok(out)
            } else {
                Err(CompilerError::ExitStatusNotSuccess { command: command.clone(), status: out.status })
            }
        },
    }
}

} // verus!
