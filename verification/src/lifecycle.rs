//! Laws of the startup sequence, over every way the host may answer.
//!
//! A startup is followed through the steps it hands out: the first step, then
//! one more for each answer of the host. The laws below hold of every such
//! run, including runs in which the host fails, answers out of turn, or keeps
//! answering after startup has ended.

use vstd::prelude::*;
use crate::command::{
    development_entry_of, has_option, lemma_serve_line_binds_endpoint, serve_line, sync_line,
    BACKEND_HOST, BACKEND_PORT, BUNDLED_ENTRY,
};
use crate::environment::resolved_environment;
use crate::host::{BuildMode, HostPathView, ResponseView};
use crate::paths::path_is_absolute;
use crate::provision::{manifest_copy_of, BUNDLE_DIRECTORY};
use crate::startup::{initial, next, StartupView, StepView};

verus! {

/// The steps handed out from `state` on, one for each of `responses`.
pub open spec fn steps_from(state: StartupView, responses: Seq<ResponseView>) -> Seq<StepView>
    decreases responses.len(),
{
    if responses.len() == 0 {
        Seq::empty()
    } else {
        seq![next(state, responses[0]).1] + steps_from(
            next(state, responses[0]).0,
            responses.drop_first(),
        )
    }
}

/// All the steps of a startup in `mode` that the host answers with
/// `responses`: the first request, then one step for each answer.
pub open spec fn steps_of(mode: BuildMode, responses: Seq<ResponseView>) -> Seq<StepView> {
    seq![initial(mode).1] + steps_from(initial(mode).0, responses)
}

/// The environment path a state holds, if it holds one.
pub open spec fn environment_of(state: StartupView) -> Option<Seq<char>> {
    match state {
        StartupView::LocatingBundle { environment }
        | StartupView::CopyingManifest { environment }
        | StartupView::Syncing { environment, .. }
        | StartupView::LocatingEntry { environment } => Some(environment),
        _ => None,
    }
}

/// The environment path that the host's first answer settles, if it settles
/// one.
pub open spec fn settled_environment(mode: BuildMode, first: ResponseView) -> Option<Seq<char>> {
    match first {
        ResponseView::Path(located) => match resolved_environment(mode, Ok(located)) {
            Ok(environment) => Some(environment),
            Err(_) => None,
        },
        _ => None,
    }
}

/// Whether `step` is about `environment`: a sync or a backend scoped to it, or
/// a copy of the manifest into it. Steps that touch no environment are about
/// any.
pub open spec fn step_is_about(step: StepView, environment: Seq<char>) -> bool {
    match step {
        StepView::Sync(command) => command == sync_line(environment),
        StepView::Launch(command) => exists|entry: Seq<char>|
            command == serve_line(environment, entry),
        StepView::Copy(copy) => exists|bundle: Seq<char>|
            copy == manifest_copy_of(environment, bundle),
        _ => true,
    }
}

/// Whether startup has ended in `state`, for better or worse.
pub open spec fn ended(state: StartupView) -> bool {
    state is Running || state is Failed
}

proof fn lemma_steps_unfold(state: StartupView, responses: Seq<ResponseView>, j: int)
    requires
        0 <= j < responses.len(),
    ensures
        steps_from(state, responses).len() == responses.len(),
        j == 0 ==> steps_from(state, responses)[j] == next(state, responses[0]).1,
        j > 0 ==> steps_from(state, responses)[j] == steps_from(
            next(state, responses[0]).0,
            responses.drop_first(),
        )[j - 1],
    decreases responses.len(),
{
    lemma_steps_len(state, responses);
    lemma_steps_len(next(state, responses[0]).0, responses.drop_first());
}

proof fn lemma_steps_len(state: StartupView, responses: Seq<ResponseView>)
    ensures
        steps_from(state, responses).len() == responses.len(),
    decreases responses.len(),
{
    if responses.len() > 0 {
        lemma_steps_len(next(state, responses[0]).0, responses.drop_first());
    }
}

proof fn lemma_launch_from(state: StartupView, responses: Seq<ResponseView>, j: int)
    requires
        0 <= j < responses.len(),
        steps_from(state, responses)[j] is Launch,
    ensures
        state is Syncing || state is LocatingEntry || exists|i: int|
            0 <= i < j && (#[trigger] steps_from(state, responses)[i]) is Sync,
    decreases responses.len(),
{
    let following = next(state, responses[0]).0;
    let rest = responses.drop_first();
    lemma_steps_unfold(state, responses, j);
    if j > 0 {
        lemma_launch_from(following, rest, j - 1);
        if following is Syncing {
            lemma_steps_unfold(state, responses, 0);
        } else if !(following is LocatingEntry) {
            let i = choose|i: int|
                0 <= i < j - 1 && (#[trigger] steps_from(following, rest)[i]) is Sync;
            lemma_steps_unfold(state, responses, i + 1);
        }
    }
}

proof fn lemma_sync_from(state: StartupView, responses: Seq<ResponseView>, j: int)
    requires
        0 <= j < responses.len(),
        steps_from(state, responses)[j] is Sync,
    ensures
        state is CopyingManifest || state == (StartupView::Resolving { mode: BuildMode::Development })
            || exists|i: int| 0 <= i < j && (#[trigger] steps_from(state, responses)[i]) is Copy,
    decreases responses.len(),
{
    let following = next(state, responses[0]).0;
    let rest = responses.drop_first();
    lemma_steps_unfold(state, responses, j);
    if j > 0 {
        lemma_sync_from(following, rest, j - 1);
        if following is CopyingManifest {
            lemma_steps_unfold(state, responses, 0);
        } else {
            let i = choose|i: int|
                0 <= i < j - 1 && (#[trigger] steps_from(following, rest)[i]) is Copy;
            lemma_steps_unfold(state, responses, i + 1);
        }
    }
}

proof fn lemma_copy_from(state: StartupView, responses: Seq<ResponseView>, j: int)
    requires
        0 <= j < responses.len(),
        steps_from(state, responses)[j] is Copy,
    ensures
        state is LocatingBundle || state == (StartupView::Resolving { mode: BuildMode::Production }),
    decreases responses.len(),
{
    lemma_steps_unfold(state, responses, j);
    if j > 0 {
        lemma_copy_from(next(state, responses[0]).0, responses.drop_first(), j - 1);
    }
}

proof fn lemma_quiet_after_launch(state: StartupView, responses: Seq<ResponseView>, j: int)
    requires
        0 <= j < responses.len(),
        state is Launching || ended(state),
    ensures
        !(steps_from(state, responses)[j] is Launch),
        !(steps_from(state, responses)[j] is Sync),
        !(steps_from(state, responses)[j] is Copy),
        !(steps_from(state, responses)[j] is Locate),
    decreases responses.len(),
{
    lemma_steps_unfold(state, responses, j);
    if j > 0 {
        lemma_quiet_after_launch(next(state, responses[0]).0, responses.drop_first(), j - 1);
    }
}

proof fn lemma_quiet_after_sync(state: StartupView, responses: Seq<ResponseView>, j: int)
    requires
        0 <= j < responses.len(),
        state is Syncing || state is LocatingEntry || state is Launching || ended(state),
    ensures
        !(steps_from(state, responses)[j] is Sync),
        !(steps_from(state, responses)[j] is Copy),
    decreases responses.len(),
{
    lemma_steps_unfold(state, responses, j);
    if j > 0 {
        lemma_quiet_after_sync(next(state, responses[0]).0, responses.drop_first(), j - 1);
    }
}

proof fn lemma_once_from(state: StartupView, responses: Seq<ResponseView>, i: int, j: int)
    requires
        0 <= i < j < responses.len(),
    ensures
        !(steps_from(state, responses)[i] is Launch && steps_from(state, responses)[j] is Launch),
        !(steps_from(state, responses)[i] is Sync && steps_from(state, responses)[j] is Sync),
    decreases responses.len(),
{
    let following = next(state, responses[0]).0;
    let rest = responses.drop_first();
    lemma_steps_unfold(state, responses, i);
    lemma_steps_unfold(state, responses, j);
    if i == 0 {
        if steps_from(state, responses)[0] is Launch {
            lemma_quiet_after_launch(following, rest, j - 1);
        }
        if steps_from(state, responses)[0] is Sync {
            lemma_quiet_after_sync(following, rest, j - 1);
        }
    } else {
        lemma_once_from(following, rest, i - 1, j - 1);
    }
}

proof fn lemma_abort_from(state: StartupView, responses: Seq<ResponseView>, i: int, j: int)
    requires
        0 <= i <= j < responses.len(),
        steps_from(state, responses)[i] is Abort,
    ensures
        steps_from(state, responses)[j] == steps_from(state, responses)[i],
    decreases responses.len(),
{
    let following = next(state, responses[0]).0;
    let rest = responses.drop_first();
    lemma_steps_unfold(state, responses, i);
    lemma_steps_unfold(state, responses, j);
    if i == 0 {
        if j > 0 {
            lemma_failed_repeats(following, rest, j - 1);
        }
    } else {
        lemma_abort_from(following, rest, i - 1, j - 1);
    }
}

proof fn lemma_failed_repeats(state: StartupView, responses: Seq<ResponseView>, j: int)
    requires
        0 <= j < responses.len(),
        state is Failed,
    ensures
        steps_from(state, responses)[j] == StepView::Abort(state->Failed_0),
    decreases responses.len(),
{
    lemma_steps_unfold(state, responses, j);
    if j > 0 {
        lemma_failed_repeats(next(state, responses[0]).0, responses.drop_first(), j - 1);
    }
}

proof fn lemma_commands_from(state: StartupView, responses: Seq<ResponseView>, j: int)
    requires
        0 <= j < responses.len(),
        state.well_formed(),
    ensures
        steps_from(state, responses)[j] matches StepView::Sync(command) ==> exists|
            environment: Seq<char>,
        |
            command == sync_line(environment) && environment.len() > 0 && path_is_absolute(
                environment,
            ),
        steps_from(state, responses)[j] matches StepView::Launch(command) ==> exists|
            environment: Seq<char>,
            entry: Seq<char>,
        |
            command == serve_line(environment, entry) && environment.len() > 0 && path_is_absolute(
                environment,
            ),
    decreases responses.len(),
{
    lemma_steps_unfold(state, responses, j);
    if j > 0 {
        lemma_commands_from(next(state, responses[0]).0, responses.drop_first(), j - 1);
    }
}

proof fn lemma_about_from(
    state: StartupView,
    responses: Seq<ResponseView>,
    j: int,
    environment: Seq<char>,
)
    requires
        0 <= j < responses.len(),
        environment_of(state) == Some(environment) || state is Launching || ended(state),
    ensures
        step_is_about(steps_from(state, responses)[j], environment),
    decreases responses.len(),
{
    lemma_steps_unfold(state, responses, j);
    if j > 0 {
        lemma_about_from(next(state, responses[0]).0, responses.drop_first(), j - 1, environment);
    }
}

/// The backend is never started before the dependency sync: in every run, a
/// `Launch` step comes after a `Sync` step.
pub proof fn lemma_sync_precedes_launch(mode: BuildMode, responses: Seq<ResponseView>, j: int)
    requires
        0 <= j < steps_of(mode, responses).len(),
        steps_of(mode, responses)[j] is Launch,
    ensures
        exists|i: int| 0 <= i < j && (#[trigger] steps_of(mode, responses)[i]) is Sync,
{
    let start = initial(mode).0;
    lemma_steps_len(start, responses);
    lemma_launch_from(start, responses, j - 1);
    let i = choose|i: int| 0 <= i < j - 1 && (#[trigger] steps_from(start, responses)[i]) is Sync;
    assert(steps_of(mode, responses)[i + 1] is Sync);
}

/// In production the dependencies are never synced before the bundled
/// manifest has been copied into the environment: in every run, a `Sync` step
/// comes after a `Copy` step.
pub proof fn lemma_copy_precedes_sync_in_production(responses: Seq<ResponseView>, j: int)
    requires
        0 <= j < steps_of(BuildMode::Production, responses).len(),
        steps_of(BuildMode::Production, responses)[j] is Sync,
    ensures
        exists|i: int|
            0 <= i < j && (#[trigger] steps_of(BuildMode::Production, responses)[i]) is Copy,
{
    let start = initial(BuildMode::Production).0;
    lemma_steps_len(start, responses);
    lemma_sync_from(start, responses, j - 1);
    let i = choose|i: int| 0 <= i < j - 1 && (#[trigger] steps_from(start, responses)[i]) is Copy;
    assert(steps_of(BuildMode::Production, responses)[i + 1] is Copy);
}

/// In development nothing is ever copied: the manifest is already in place.
pub proof fn lemma_development_never_copies(responses: Seq<ResponseView>, j: int)
    requires
        0 <= j < steps_of(BuildMode::Development, responses).len(),
    ensures
        !(steps_of(BuildMode::Development, responses)[j] is Copy),
{
    let start = initial(BuildMode::Development).0;
    lemma_steps_len(start, responses);
    if j > 0 && steps_from(start, responses)[j - 1] is Copy {
        lemma_copy_from(start, responses, j - 1);
    }
}

/// The dependency sync and the backend are each started at most once in a
/// run.
pub proof fn lemma_started_at_most_once(
    mode: BuildMode,
    responses: Seq<ResponseView>,
    i: int,
    j: int,
)
    requires
        0 <= i < j < steps_of(mode, responses).len(),
    ensures
        !(steps_of(mode, responses)[i] is Launch && steps_of(mode, responses)[j] is Launch),
        !(steps_of(mode, responses)[i] is Sync && steps_of(mode, responses)[j] is Sync),
{
    let start = initial(mode).0;
    lemma_steps_len(start, responses);
    if i > 0 {
        lemma_once_from(start, responses, i - 1, j - 1);
    }
}

/// Once startup is abandoned nothing else is attempted: every step after an
/// `Abort` is the same `Abort`.
pub proof fn lemma_abort_is_final(mode: BuildMode, responses: Seq<ResponseView>, i: int, j: int)
    requires
        0 <= i <= j < steps_of(mode, responses).len(),
        steps_of(mode, responses)[i] is Abort,
    ensures
        steps_of(mode, responses)[j] == steps_of(mode, responses)[i],
{
    let start = initial(mode).0;
    lemma_steps_len(start, responses);
    lemma_abort_from(start, responses, i - 1, j - 1);
}

/// Every command of a run is scoped to an environment path that is absolute
/// and not empty, and every backend command binds the fixed endpoint.
pub proof fn lemma_commands_run_in_the_environment(
    mode: BuildMode,
    responses: Seq<ResponseView>,
    j: int,
)
    requires
        0 <= j < steps_of(mode, responses).len(),
    ensures
        steps_of(mode, responses)[j] matches StepView::Sync(command) ==> command.args.len() == 3
            && command.args[2].len() > 0 && path_is_absolute(command.args[2]),
        steps_of(mode, responses)[j] matches StepView::Launch(command) ==> command.args.len() == 8
            && command.args[2].len() > 0 && path_is_absolute(command.args[2]) && has_option(
            command.args,
            "--host"@,
            BACKEND_HOST@,
        ) && has_option(command.args, "--port"@, BACKEND_PORT@),
{
    let start = initial(mode).0;
    lemma_steps_len(start, responses);
    if j > 0 {
        lemma_commands_from(start, responses, j - 1);
        match steps_from(start, responses)[j - 1] {
            StepView::Launch(command) => {
                let (environment, entry) = choose|environment: Seq<char>, entry: Seq<char>|
                    command == serve_line(environment, entry) && environment.len() > 0
                        && path_is_absolute(environment);
                lemma_serve_line_binds_endpoint(environment, entry);
            },
            _ => {},
        }
    }
}

/// The environment is chosen once and never changes: every copy, sync and
/// backend of a run is about the one path that the host's first answer
/// settled.
pub proof fn lemma_environment_is_fixed(mode: BuildMode, responses: Seq<ResponseView>, j: int)
    requires
        0 <= j < steps_of(mode, responses).len(),
        steps_of(mode, responses)[j] is Copy || steps_of(mode, responses)[j] is Sync || steps_of(
            mode,
            responses,
        )[j] is Launch,
    ensures
        responses.len() > 0,
        settled_environment(mode, responses[0]) matches Some(environment) && step_is_about(
            steps_of(mode, responses)[j],
            environment,
        ),
{
    let start = initial(mode).0;
    lemma_steps_len(start, responses);
    lemma_steps_unfold(start, responses, j - 1);
    let following = next(start, responses[0]).0;
    if j > 1 {
        match environment_of(following) {
            Some(environment) => {
                lemma_about_from(following, responses.drop_first(), j - 2, environment);
            },
            None => {
                lemma_quiet_after_launch(following, responses.drop_first(), j - 2);
            },
        }
    }
}

/// A development startup that meets no failure: the working directory is
/// asked for, the dependencies are synced, the backend is started from the
/// entry script inside the project, and the relay begins.
pub proof fn lemma_development_run(located: Seq<char>)
    ensures
        resolved_environment(BuildMode::Development, Ok(located)) matches Ok(environment)
            ==> steps_of(
            BuildMode::Development,
            seq![ResponseView::Path(located), ResponseView::Done, ResponseView::Done],
        ) == seq![
            StepView::Locate(HostPathView::WorkingDirectory),
            StepView::Sync(sync_line(environment)),
            StepView::Launch(serve_line(environment, development_entry_of(environment))),
            StepView::Relay,
        ],
{
    let responses = seq![ResponseView::Path(located), ResponseView::Done, ResponseView::Done];
    if resolved_environment(BuildMode::Development, Ok(located)) is Ok {
        let environment = resolved_environment(BuildMode::Development, Ok(located))->Ok_0;
        reveal_with_fuel(steps_from, 4);
        assert(responses.drop_first().drop_first().drop_first().len() == 0);
        assert(steps_of(BuildMode::Development, responses) =~= seq![
            StepView::Locate(HostPathView::WorkingDirectory),
            StepView::Sync(sync_line(environment)),
            StepView::Launch(serve_line(environment, development_entry_of(environment))),
            StepView::Relay,
        ]);
    }
}

/// A production startup that meets no failure: the data directory is asked
/// for, the bundled manifest is located and copied into it, the dependencies
/// are synced, the bundled entry script is located, the backend is started
/// from it, and the relay begins.
pub proof fn lemma_production_run(located: Seq<char>, bundle: Seq<char>, entry: Seq<char>)
    ensures
        resolved_environment(BuildMode::Production, Ok(located)) matches Ok(environment)
            ==> steps_of(
            BuildMode::Production,
            seq![
                ResponseView::Path(located),
                ResponseView::Path(bundle),
                ResponseView::Done,
                ResponseView::Done,
                ResponseView::Path(entry),
                ResponseView::Done,
            ],
        ) == seq![
            StepView::Locate(HostPathView::AppDataDirectory),
            StepView::Locate(HostPathView::Resource(BUNDLE_DIRECTORY@)),
            StepView::Copy(manifest_copy_of(environment, bundle)),
            StepView::Sync(sync_line(environment)),
            StepView::Locate(HostPathView::Resource(BUNDLED_ENTRY@)),
            StepView::Launch(serve_line(environment, entry)),
            StepView::Relay,
        ],
{
    let responses = seq![
        ResponseView::Path(located),
        ResponseView::Path(bundle),
        ResponseView::Done,
        ResponseView::Done,
        ResponseView::Path(entry),
        ResponseView::Done,
    ];
    if resolved_environment(BuildMode::Production, Ok(located)) is Ok {
        let environment = resolved_environment(BuildMode::Production, Ok(located))->Ok_0;
        reveal_with_fuel(steps_from, 7);
        let rest = responses.drop_first().drop_first().drop_first();
        assert(rest.drop_first().drop_first().drop_first().len() == 0);
        assert(steps_of(BuildMode::Production, responses) =~= seq![
            StepView::Locate(HostPathView::AppDataDirectory),
            StepView::Locate(HostPathView::Resource(BUNDLE_DIRECTORY@)),
            StepView::Copy(manifest_copy_of(environment, bundle)),
            StepView::Sync(sync_line(environment)),
            StepView::Locate(HostPathView::Resource(BUNDLED_ENTRY@)),
            StepView::Launch(serve_line(environment, entry)),
            StepView::Relay,
        ]);
    }
}

} // verus!
