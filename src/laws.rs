use vstd::prelude::*;
use vstd::utf8::*;
use crate::backend::{
    command_of, file_invocation, standard_json_invocation, version_invocation, Backend,
};
use crate::error::{run_failure, ErrorView, ProcessRun};
use crate::probe::{last_text_line, version_outcome};
use crate::session::{
    advance, enter, exchange_outcome, next, well_formed, ActionView, SessionView, Stage, TaskView,
};

verus! {

/// A version probe whose process printed nothing fails with `OutputEmpty`,
/// whichever backend it probes.
pub proof fn law_silent_probe_is_empty(b: Backend, run: ProcessRun)
    requires
        run is Exited,
        run->Exited_0.status.is_success(),
        run->Exited_0.stdout@.len() == 0,
    ensures
        version_outcome(b, run) == Err::<Seq<char>, ErrorView>(
            ErrorView::OutputEmpty(command_of(version_invocation(b))),
        ),
{
    let out = run->Exited_0.stdout@;
    assert(valid_utf8(out));
    assert(out.subrange(0, 0) =~= out);
    assert(last_text_line(out) is None);
}

/// A process that exits without success makes every operation that ran it fail
/// with `ExitStatusNotSuccess`, carrying its command line and that exit status,
/// whatever it printed.
pub proof fn law_exit_failure(
    b: Backend,
    file: Seq<char>,
    output_dir: Seq<char>,
    request: Seq<char>,
    run: ProcessRun,
)
    requires
        run is Exited,
        !run->Exited_0.status.is_success(),
    ensures
        version_outcome(b, run) == Err::<Seq<char>, ErrorView>(
            ErrorView::ExitStatusNotSuccess(command_of(version_invocation(b)), run->Exited_0.status),
        ),
        run_failure(command_of(file_invocation(b, file, output_dir)), run) == Some(
            ErrorView::ExitStatusNotSuccess(
                command_of(file_invocation(b, file, output_dir)),
                run->Exited_0.status,
            ),
        ),
        exchange_outcome(b, request, run) == ActionView::Fail(
            ErrorView::ExitStatusNotSuccess(
                command_of(standard_json_invocation(b, request)),
                run->Exited_0.status,
            ),
        ),
{
}

/// Where `solc` answers its probe, it is chosen, and `solcjs` is not even probed.
pub proof fn law_solc_preferred(s: SessionView, run: ProcessRun)
    requires
        s.stage == Stage::ProbeSolc,
        version_outcome(Backend::Solc, run) is Ok,
    ensures
        next(s, run) == enter(s.task, Backend::Solc),
{
}

/// Where neither backend answers its probe, the session ends with
/// `NoCompilerFound` and asks for no compile.
pub proof fn law_no_compiler(s: SessionView, solc_run: ProcessRun, solcjs_run: ProcessRun)
    requires
        s.stage == Stage::ProbeSolc,
        version_outcome(Backend::Solc, solc_run) is Err,
        version_outcome(Backend::Solcjs, solcjs_run) is Err,
    ensures
        next(s, solc_run) == (Stage::ProbeSolcjs, ActionView::Run(version_invocation(Backend::Solcjs))),
        next(SessionView { task: s.task, stage: next(s, solc_run).0 }, solcjs_run) == (
            Stage::Done,
            ActionView::Fail(ErrorView::NoCompilerFound),
        ),
{
}

/// Against a process that echoes its input, the standard-JSON response is the
/// request itself.
pub proof fn law_echo_round_trip(s: SessionView, b: Backend, request: Seq<char>, run: ProcessRun)
    requires
        s.task == (TaskView::Json { request }),
        s.stage == (Stage::Exchange { backend: b }),
        run is Exited,
        run->Exited_0.status.is_success(),
        run->Exited_0.stdout@ == encode_utf8(request),
    ensures
        exchange_outcome(b, request, run) == ActionView::Respond(request),
        next(s, run) == (Stage::Done, ActionView::Respond(request)),
{
    encode_utf8_valid_utf8(request);
    encode_utf8_decode_utf8(request);
}

/// The files are compiled in their order, one run each; the first run that
/// fails ends the session with its failure, and no later file is compiled.
pub proof fn law_files_in_order_fail_fast(
    s: SessionView,
    files: Seq<Seq<char>>,
    dir: Seq<char>,
    b: Backend,
    i: usize,
    run: ProcessRun,
)
    requires
        s.task == (TaskView::Files { files, output_dir: dir }),
        s.stage == (Stage::Compile { backend: b, index: i }),
        i < files.len(),
    ensures
        match run_failure(command_of(file_invocation(b, files[i as int], dir)), run) {
            Some(e) => next(s, run) == (Stage::Done, ActionView::Fail(e)),
            None => next(s, run) == advance(files, dir, b, i + 1),
        },
{
}

/// Every step of a well-formed session that has not ended leads to a
/// well-formed session.
pub proof fn law_step_keeps_well_formed(s: SessionView, run: ProcessRun)
    requires
        well_formed(s),
        !(s.stage is Done),
    ensures
        well_formed(SessionView { task: s.task, stage: next(s, run).0 }),
{
}

} // verus!
