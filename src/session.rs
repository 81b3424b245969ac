use vstd::prelude::*;
use vstd::utf8::*;
use crate::backend::{
    command_of, file_command, file_invocation, standard_json_command, standard_json_invocation,
    strings_view, version_command, version_invocation, Backend, Invocation, InvocationView,
};
use crate::error::{classify, run_failure, CompilerError, ErrorView, ProcessOutput, ProcessRun};
use crate::files::{solidity_file_paths, solidity_only};
use crate::probe::{utf8_text, version_from_run, version_outcome};

verus! {

/// What a session was opened for.
pub enum Task {
    /// Compile each file, in order, into `output_dir`.
    Files { files: Vec<String>, output_dir: String },
    /// Exchange one standard-JSON request for its response.
    Json { request: String },
}

pub enum TaskView {
    Files { files: Seq<Seq<char>>, output_dir: Seq<char> },
    Json { request: Seq<char> },
}

impl View for Task {
    type V = TaskView;

    open spec fn view(&self) -> TaskView {
        match self {
            Task::Files { files, output_dir } => TaskView::Files {
                files: strings_view(files@),
                output_dir: output_dir@,
            },
            Task::Json { request } => TaskView::Json { request: request@ },
        }
    }
}

/// Where a session stands.
#[derive(Clone, Copy, Debug, PartialEq, Eq, Structural)]
pub enum Stage {
    /// Waiting for the run of `solc --version`.
    ProbeSolc,
    /// Waiting for the run of `solcjs --version`.
    ProbeSolcjs,
    /// Waiting for the compile of the file at `index`.
    Compile { backend: Backend, index: usize },
    /// Waiting for the standard-JSON exchange.
    Exchange { backend: Backend },
    /// Nothing more is to be run.
    Done,
}

/// What the caller is to do next.
#[derive(Clone, Debug, PartialEq, Eq)]
pub enum Action {
    /// Run this invocation and hand its run to `Session::step`.
    Run(Invocation),
    /// Every file was compiled.
    Compiled,
    /// The standard-JSON response.
    Respond(String),
    /// The session failed.
    Fail(CompilerError),
}

pub enum ActionView {
    Run(InvocationView),
    Compiled,
    Respond(Seq<char>),
    Fail(ErrorView),
}

impl View for Action {
    type V = ActionView;

    open spec fn view(&self) -> ActionView {
        match self {
            Action::Run(inv) => ActionView::Run(inv@),
            Action::Compiled => ActionView::Compiled,
            Action::Respond(s) => ActionView::Respond(s@),
            Action::Fail(e) => ActionView::Fail(e@),
        }
    }
}

/// One compile or standard-JSON exchange, from the choice of a backend to its end.
/// The caller runs each invocation that it asks for and hands back the run.
pub struct Session {
    task: Task,
    stage: Stage,
}

pub struct SessionView {
    pub task: TaskView,
    pub stage: Stage,
}

impl View for Session {
    type V = SessionView;

    closed spec fn view(&self) -> SessionView {
        SessionView { task: self.task@, stage: self.stage }
    }
}

/// A stage that fits its task: a compile stands at one of the task's files,
/// and an exchange belongs to a standard-JSON task.
pub open spec fn well_formed(s: SessionView) -> bool {
    match s.stage {
        Stage::Compile { index, .. } => match s.task {
            TaskView::Files { files, .. } => index < files.len(),
            TaskView::Json { .. } => false,
        },
        Stage::Exchange { .. } => s.task is Json,
        _ => true,
    }
}

/// The stage and action that compiling `files` from position `i` on with `b` begins with.
pub open spec fn advance(files: Seq<Seq<char>>, output_dir: Seq<char>, b: Backend, i: int) -> (
    Stage,
    ActionView,
) {
    if 0 <= i < files.len() {
        (
            Stage::Compile { backend: b, index: i as usize },
            ActionView::Run(file_invocation(b, files[i], output_dir)),
        )
    } else {
        (Stage::Done, ActionView::Compiled)
    }
}

/// The stage and action that a task begins with once `b` is chosen.
pub open spec fn enter(task: TaskView, b: Backend) -> (Stage, ActionView) {
    match task {
        TaskView::Files { files, output_dir } => advance(files, output_dir, b, 0),
        TaskView::Json { request } => (
            Stage::Exchange { backend: b },
            ActionView::Run(standard_json_invocation(b, request)),
        ),
    }
}

/// The response of a standard-JSON exchange with `b` from its run.
pub open spec fn exchange_outcome(b: Backend, request: Seq<char>, run: ProcessRun) -> ActionView {
    let command = command_of(standard_json_invocation(b, request));
    match run_failure(command, run) {
        Some(e) => ActionView::Fail(e),
        None => {
            let out = run->Exited_0.stdout@;
            if valid_utf8(out) {
                ActionView::Respond(decode_utf8(out))
            } else {
                ActionView::Fail(ErrorView::OutputNotUtf8(command))
            }
        },
    }
}

/// The stage and action that follow a run in stage `s.stage`.
pub open spec fn next(s: SessionView, run: ProcessRun) -> (Stage, ActionView) {
    match s.stage {
        Stage::ProbeSolc => if version_outcome(Backend::Solc, run) is Ok {
            enter(s.task, Backend::Solc)
        } else {
            (Stage::ProbeSolcjs, ActionView::Run(version_invocation(Backend::Solcjs)))
        },
        Stage::ProbeSolcjs => if version_outcome(Backend::Solcjs, run) is Ok {
            enter(s.task, Backend::Solcjs)
        } else {
            (Stage::Done, ActionView::Fail(ErrorView::NoCompilerFound))
        },
        Stage::Compile { backend, index } => match s.task {
            TaskView::Files { files, output_dir } => if index < files.len() {
                match run_failure(command_of(file_invocation(backend, files[index as int], output_dir)), run) {
                    Some(e) => (Stage::Done, ActionView::Fail(e)),
                    None => advance(files, output_dir, backend, index + 1),
                }
            } else {
                (Stage::Done, ActionView::Compiled)
            },
            TaskView::Json { .. } => (Stage::Done, ActionView::Compiled),
        },
        Stage::Exchange { backend } => match s.task {
            TaskView::Json { request } => (Stage::Done, exchange_outcome(backend, request, run)),
            TaskView::Files { .. } => (Stage::Done, ActionView::Compiled),
        },
        Stage::Done => (Stage::Done, ActionView::Compiled),
    }
}

fn advance_exec(files: &Vec<String>, output_dir: &String, b: Backend, i: usize) -> (r: (Stage, Action))
    ensures
        (r.0, r.1@) == advance(strings_view(files@), output_dir@, b, i as int),
{
    if i < files.len() {
        (Stage::Compile { backend: b, index: i }, Action::Run(file_command(b, files[i].as_str(), output_dir.as_str())))
    } else {
        (Stage::Done, Action::Compiled)
    }
}

fn enter_exec(task: &Task, b: Backend) -> (r: (Stage, Action))
    ensures
        (r.0, r.1@) == enter(task@, b),
{
    match task {
        Task::Files { files, output_dir } => advance_exec(files, output_dir, b, 0),
        Task::Json { request } => (
            Stage::Exchange { backend: b },
            Action::Run(standard_json_command(b, request.as_str())),
        ),
    }
}

fn exchange(b: Backend, request: &String, run: ProcessRun) -> (r: Action)
    ensures
        r@ == exchange_outcome(b, request@, run),
{
    let command = standard_json_command(b, request.as_str()).command();
    match classify(&command, run) {
        Err(e) => Action::Fail(e),
        Ok(out) => match utf8_text(out.stdout.as_slice()) {
            Some(text) => Action::Respond(text.to_owned()),
            None => Action::Fail(CompilerError::OutputNotUtf8 { command }),
        },
    }
}

impl Session {
    /// Whether nothing more is to be run.
    pub fn is_finished(&self) -> (r: bool)
        ensures
            r == (self@.stage is Done),
    {
        match self.stage {
            Stage::Done => true,
            _ => false,
        }
    }

    /// Takes the run of the invocation last asked for, and says what comes next.
    pub fn step(&mut self, run: ProcessRun) -> (r: Action)
        requires
            !(old(self)@.stage is Done),
        ensures
            final(self)@.task == old(self)@.task,
            (final(self)@.stage, r@) == next(old(self)@, run),
    {
        let (stage, action) = match self.stage {
            Stage::ProbeSolc => {
                if version_from_run(Backend::Solc, run).is_ok() {
                    enter_exec(&self.task, Backend::Solc)
                } else {
                    (Stage::ProbeSolcjs, Action::Run(version_command(Backend::Solcjs)))
                }
            },
            Stage::ProbeSolcjs => {
                if version_from_run(Backend::Solcjs, run).is_ok() {
                    enter_exec(&self.task, Backend::Solcjs)
                } else {
                    (Stage::Done, Action::Fail(CompilerError::NoCompilerFound))
                }
            },
            Stage::Compile { backend, index } => match &self.task {
                Task::Files { files, output_dir } => {
                    if index < files.len() {
                        let command = file_command(backend, files[index].as_str(), output_dir.as_str()).command();
                        match classify(&command, run) {
                            Err(e) => (Stage::Done, Action::Fail(e)),
                            Ok(_) => advance_exec(files, output_dir, backend, index + 1),
                        }
                    } else {
                        (Stage::Done, Action::Compiled)
                    }
                },
                Task::Json { .. } => (Stage::Done, Action::Compiled),
            },
            Stage::Exchange { backend } => match &self.task {
                Task::Json { request } => (Stage::Done, exchange(backend, request, run)),
                Task::Files { .. } => (Stage::Done, Action::Compiled),
            },
            Stage::Done => (Stage::Done, Action::Compiled),
        };
        self.stage = stage;
        action
    }
}

/// The outcome of compiling `input_file_path` into `output_dir_path` with `b`,
/// from the run of that invocation: its output where it exited with success.
pub fn file_compile_result(
    b: Backend,
    input_file_path: &str,
    output_dir_path: &str,
    run: ProcessRun,
) -> (r: Result<ProcessOutput, CompilerError>)
    ensures
        match run_failure(command_of(file_invocation(b, input_file_path@, output_dir_path@)), run) {
            Some(e) => r is Err && r->Err_0@ == e,
            None => run is Exited && r == Ok::<ProcessOutput, CompilerError>(run->Exited_0),
        },
{
    let command = file_command(b, input_file_path, output_dir_path).command();
    classify(&command, run)
}

/// The outcome of compiling one file with `solc`, from the run of that invocation.
pub fn solc_compile(input_file_path: &str, output_dir_path: &str, run: ProcessRun) -> (r: Result<
    ProcessOutput,
    CompilerError,
>)
    ensures
        match run_failure(command_of(file_invocation(Backend::Solc, input_file_path@, output_dir_path@)), run) {
            Some(e) => r is Err && r->Err_0@ == e,
            None => run is Exited && r == Ok::<ProcessOutput, CompilerError>(run->Exited_0),
        },
{
    file_compile_result(Backend::Solc, input_file_path, output_dir_path, run)
}

/// The outcome of compiling one file with `solcjs`, from the run of that invocation.
pub fn solcjs_compile(input_file_path: &str, output_dir_path: &str, run: ProcessRun) -> (r: Result<
    ProcessOutput,
    CompilerError,
>)
    ensures
        match run_failure(command_of(file_invocation(Backend::Solcjs, input_file_path@, output_dir_path@)), run) {
            Some(e) => r is Err && r->Err_0@ == e,
            None => run is Exited && r == Ok::<ProcessOutput, CompilerError>(run->Exited_0),
        },
{
    file_compile_result(Backend::Solcjs, input_file_path, output_dir_path, run)
}

/// Opens the compile of every Solidity file among `entries` into `output_dir`,
/// with `solc` where it answers its version probe, else with `solcjs`.
pub fn compile(entries: &Vec<String>, output_dir: &str) -> (r: (Session, Action))
    ensures
        r.0@.task == (TaskView::Files {
            files: solidity_only(strings_view(entries@)),
            output_dir: output_dir@,
        }),
        r.0@.stage == Stage::ProbeSolc,
        well_formed(r.0@),
        r.1@ == ActionView::Run(version_invocation(Backend::Solc)),
{
    let task = Task::Files { files: solidity_file_paths(entries), output_dir: output_dir.to_owned() };
    (Session { task, stage: Stage::ProbeSolc }, Action::Run(version_command(Backend::Solc)))
}

/// Opens the exchange of `input_json` for its response, with `solc` where it
/// answers its version probe, else with `solcjs`.
pub fn standard_json(input_json: &str) -> (r: (Session, Action))
    ensures
        r.0@.task == (TaskView::Json { request: input_json@ }),
        r.0@.stage == Stage::ProbeSolc,
        well_formed(r.0@),
        r.1@ == ActionView::Run(version_invocation(Backend::Solc)),
{
    let task = Task::Json { request: input_json.to_owned() };
    (Session { task, stage: Stage::ProbeSolc }, Action::Run(version_command(Backend::Solc)))
}

/// Opens the exchange of `input_json` for its response with the backend `b`.
pub fn common_standard_json(b: Backend, input_json: &str) -> (r: (Session, Action))
    ensures
        r.0@.task == (TaskView::Json { request: input_json@ }),
        r.0@.stage == (Stage::Exchange { backend: b }),
        well_formed(r.0@),
        r.1@ == ActionView::Run(standard_json_invocation(b, input_json@)),
{
    let task = Task::Json { request: input_json.to_owned() };
    (Session { task, stage: Stage::Exchange { backend: b } }, Action::Run(standard_json_command(b, input_json)))
}

} // verus!
