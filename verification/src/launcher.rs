//! The launcher: from what the operating system answered to what is done next.
//!
//! A launch takes two answers of the system. The first is the path of the
//! running executable; from it and the platform, [`begin_launch`] decides
//! whether a process is to be created, and which. The second is the answer to
//! that one request; from it, [`finish_launch`] makes the outcome. The launcher
//! keeps nothing between launches.

use vstd::prelude::*;
use vstd::string::StringExecFns;
use crate::command::{
    Argument, ArgumentView, Program, ProgramView, SpawnRequest, SpawnRequestView,
};
use crate::message::{
    lemma_messages_open_with_their_step, lemma_spawned_text_injective, path_failure_text,
    spawned_text, starts_with, unsupported_text,
};
use crate::outcome::{
    lemma_made_outcomes_are_well_formed, LaunchError, LaunchErrorView, LaunchOutcome,
    LaunchOutcomeView,
};
use crate::platform::{Console, Platform};

verus! {

/// What the system answered when asked for the running executable's path, with
/// the diagnostic of a refusal as a sequence of characters.
pub open spec fn lookup_view<P>(lookup: Result<P, String>) -> Result<P, Seq<char>> {
    match lookup {
        Ok(path) => Ok(path),
        Err(diagnostic) => Err(diagnostic@),
    }
}

/// What the system answered when asked to create a process, with the
/// diagnostic of a refusal as a sequence of characters.
pub open spec fn spawned_view(spawned: Result<u32, String>) -> Result<u32, Seq<char>> {
    match spawned {
        Ok(process_id) => Ok(process_id),
        Err(diagnostic) => Err(diagnostic@),
    }
}

/// The process that is asked for on `platform` to run the executable at
/// `executable` as a new instance, or `None` where the platform has no way of
/// launching.
///
/// Windows runs the executable in a console of its own. macOS runs
/// `open -n -a` on the executable: `-n` asks for a new instance even where one
/// is running, `-a` names the application. Linux runs the executable as an
/// ordinary child.
pub open spec fn strategy<P>(platform: Platform, executable: P) -> Option<SpawnRequestView<P>> {
    match platform {
        Platform::Windows => Some(
            SpawnRequestView {
                program: ProgramView::Executable(executable),
                arguments: Seq::empty(),
                console: Console::New,
            },
        ),
        Platform::MacOs => Some(
            SpawnRequestView {
                program: ProgramView::Utility("open"@),
                arguments: seq![
                    ArgumentView::Text("-n"@),
                    ArgumentView::Text("-a"@),
                    ArgumentView::Path(executable),
                ],
                console: Console::Inherited,
            },
        ),
        Platform::Linux => Some(
            SpawnRequestView {
                program: ProgramView::Executable(executable),
                arguments: Seq::empty(),
                console: Console::Inherited,
            },
        ),
        Platform::Unsupported => None,
    }
}

/// The request that a launch makes, or the failure that ends it before any
/// process is asked for. A failed lookup comes first: it ends the launch on
/// every platform.
pub open spec fn planned<P>(platform: Platform, lookup: Result<P, Seq<char>>) -> Result<
    SpawnRequestView<P>,
    LaunchErrorView,
> {
    match lookup {
        Err(diagnostic) => Err(LaunchErrorView::PathResolution(diagnostic)),
        Ok(executable) => match strategy(platform, executable) {
            Some(request) => Ok(request),
            None => Err(LaunchErrorView::UnsupportedPlatform),
        },
    }
}

/// The identifier of the new process, or the failure that the system's refusal
/// amounts to.
pub open spec fn concluded(spawned: Result<u32, Seq<char>>) -> Result<u32, LaunchErrorView> {
    match spawned {
        Ok(process_id) => Ok(process_id),
        Err(diagnostic) => Err(LaunchErrorView::ProcessCreation(diagnostic)),
    }
}

/// What a launch does after the lookup of the executable's path.
#[derive(Clone, Debug, PartialEq, Eq)]
pub enum Step<P> {
    /// Create this process, once, and hand the system's answer to
    /// [`finish_launch`].
    Spawn(SpawnRequest<P>),
    /// The launch is over; no process is to be created.
    Finished(LaunchOutcome),
}

/// A step, with text as sequences of characters.
pub ghost enum StepView<P> {
    Spawn(SpawnRequestView<P>),
    Finished(LaunchOutcomeView),
}

impl<P> View for Step<P> {
    type V = StepView<P>;

    open spec fn view(&self) -> StepView<P> {
        match *self {
            Step::Spawn(request) => StepView::Spawn(request@),
            Step::Finished(outcome) => StepView::Finished(outcome@),
        }
    }
}

/// The step that follows the lookup.
pub open spec fn first_step<P>(platform: Platform, lookup: Result<P, Seq<char>>) -> StepView<P> {
    match planned(platform, lookup) {
        Ok(request) => StepView::Spawn(request),
        Err(error) => StepView::Finished(LaunchOutcomeView::failed(error)),
    }
}

/// The outcome that follows the system's answer to the request.
pub open spec fn last_step(spawned: Result<u32, Seq<char>>) -> LaunchOutcomeView {
    match concluded(spawned) {
        Ok(process_id) => LaunchOutcomeView::spawned(process_id),
        Err(error) => LaunchOutcomeView::failed(error),
    }
}

/// The outcome of a whole launch on `platform`: `lookup` is the system's answer
/// to the lookup, and `spawned` the answer that it gives to the request, should
/// the launch come to make one.
pub open spec fn launch_outcome<P>(
    platform: Platform,
    lookup: Result<P, Seq<char>>,
    spawned: Result<u32, Seq<char>>,
) -> LaunchOutcomeView {
    match first_step(platform, lookup) {
        StepView::Spawn(_) => last_step(spawned),
        StepView::Finished(outcome) => outcome,
    }
}

/// The request with which `platform` launches the executable at `executable`,
/// or `None` where the platform has no way of launching.
pub fn select_strategy<P>(platform: Platform, executable: P) -> (request: Option<SpawnRequest<P>>)
    ensures
        match request {
            Some(request) => strategy(platform, executable) == Some(request@),
            None => strategy(platform, executable) is None,
        },
{
    match platform {
        Platform::Windows => {
            let request = SpawnRequest {
                program: Program::Executable(executable),
                arguments: Vec::new(),
                console: Console::New,
            };
            assert(request@.arguments =~= Seq::empty());
            Some(request)
        },
        Platform::MacOs => {
            let mut arguments: Vec<Argument<P>> = Vec::new();
            arguments.push(Argument::Text(String::from_str("-n")));
            arguments.push(Argument::Text(String::from_str("-a")));
            arguments.push(Argument::Path(executable));
            let request = SpawnRequest {
                program: Program::Utility(String::from_str("open")),
                arguments,
                console: Console::Inherited,
            };
            assert(request@.arguments =~= seq![
                ArgumentView::Text("-n"@),
                ArgumentView::Text("-a"@),
                ArgumentView::Path(executable),
            ]);
            Some(request)
        },
        Platform::Linux => {
            let request = SpawnRequest {
                program: Program::Executable(executable),
                arguments: Vec::new(),
                console: Console::Inherited,
            };
            assert(request@.arguments =~= Seq::empty());
            Some(request)
        },
        Platform::Unsupported => None,
    }
}

/// Decides what a launch asks of the system, from the platform and the answer
/// to the lookup of the running executable's path.
///
/// A failed lookup gives `PathResolution` with the system's diagnostic, on
/// every platform. With the path at hand, a platform without a way of launching
/// gives `UnsupportedPlatform`; any other gives the request of its strategy.
pub fn plan_launch<P>(platform: Platform, lookup: Result<P, String>) -> (plan: Result<
    SpawnRequest<P>,
    LaunchError,
>)
    ensures
        match plan {
            Ok(request) => planned(platform, lookup_view(lookup)) == Ok::<
                SpawnRequestView<P>,
                LaunchErrorView,
            >(request@),
            Err(error) => planned(platform, lookup_view(lookup)) == Err::<
                SpawnRequestView<P>,
                LaunchErrorView,
            >(error@),
        },
{
    match lookup {
        Err(diagnostic) => Err(LaunchError::PathResolution(diagnostic)),
        Ok(executable) => match select_strategy(platform, executable) {
            Some(request) => Ok(request),
            None => Err(LaunchError::UnsupportedPlatform),
        },
    }
}

/// Tells the identifier of the new process from the system's answer to the
/// request, or the failure that its refusal amounts to: `ProcessCreation` with
/// the system's diagnostic.
pub fn conclude_spawn(spawned: Result<u32, String>) -> (conclusion: Result<u32, LaunchError>)
    ensures
        match conclusion {
            Ok(process_id) => concluded(spawned_view(spawned)) == Ok::<u32, LaunchErrorView>(
                process_id,
            ),
            Err(error) => concluded(spawned_view(spawned)) == Err::<u32, LaunchErrorView>(
                error@,
            ),
        },
{
    match spawned {
        Ok(process_id) => Ok(process_id),
        Err(diagnostic) => Err(LaunchError::ProcessCreation(diagnostic)),
    }
}

/// The first half of a launch: from the platform and the system's answer to
/// the lookup of the running executable's path, the process to create, or the
/// failure that ends the launch with no process asked for.
pub fn begin_launch<P>(platform: Platform, lookup: Result<P, String>) -> (step: Step<P>)
    ensures
        step@ == first_step(platform, lookup_view(lookup)),
        step@ is Finished ==> step@->Finished_0.well_formed(),
{
    match plan_launch(platform, lookup) {
        Ok(request) => Step::Spawn(request),
        Err(error) => Step::Finished(LaunchOutcome::failed(&error)),
    }
}

/// The second half of a launch: from the system's answer to the request, the
/// outcome. A created process gives a success that names its identifier; a
/// refusal gives a failure with the system's diagnostic.
pub fn finish_launch(spawned: Result<u32, String>) -> (outcome: LaunchOutcome)
    ensures
        outcome@ == last_step(spawned_view(spawned)),
        outcome@.well_formed(),
{
    match conclude_spawn(spawned) {
        Ok(process_id) => LaunchOutcome::spawned(process_id),
        Err(error) => LaunchOutcome::failed(&error),
    }
}

/// A launch succeeds exactly where the lookup gave a path, the platform has a
/// way of launching and the system accepted the request. The success then
/// carries the identifier that the system gave, and its message names that
/// identifier and no other.
pub proof fn lemma_success_names_the_new_process<P>(
    platform: Platform,
    lookup: Result<P, Seq<char>>,
    spawned: Result<u32, Seq<char>>,
)
    ensures
        launch_outcome(platform, lookup, spawned) is Success <==> lookup is Ok
            && platform.supported() && spawned is Ok,
        launch_outcome(platform, lookup, spawned) is Success ==> launch_outcome(
            platform,
            lookup,
            spawned,
        ) == (LaunchOutcomeView::Success {
            process_id: spawned->Ok_0,
            message: spawned_text(spawned->Ok_0),
        }),
        forall|other: u32|
            launch_outcome(platform, lookup, spawned) is Success && other != spawned->Ok_0
                ==> launch_outcome(platform, lookup, spawned).message() != #[trigger] spawned_text(
                other,
            ),
{
    assert forall|other: u32|
        launch_outcome(platform, lookup, spawned) is Success && other
            != spawned->Ok_0 implies launch_outcome(platform, lookup, spawned).message()
        != #[trigger] spawned_text(other) by {
        lemma_spawned_text_injective(other, spawned->Ok_0);
    }
}

/// Where the lookup of the running executable's path fails, the launch ends
/// there, on every platform: no process is asked for, and the outcome is a
/// failure whose message opens with the words that name the lookup and goes on
/// with the system's diagnostic.
pub proof fn lemma_failed_lookup_ends_the_launch<P>(
    platform: Platform,
    diagnostic: Seq<char>,
    spawned: Result<u32, Seq<char>>,
)
    ensures
        first_step::<P>(platform, Err(diagnostic)) == StepView::<P>::Finished(
            LaunchOutcomeView::Failure { message: path_failure_text(diagnostic) },
        ),
        launch_outcome::<P>(platform, Err(diagnostic), spawned) == (LaunchOutcomeView::Failure {
            message: path_failure_text(diagnostic),
        }),
        path_failure_text(diagnostic).len() > 0,
        starts_with(path_failure_text(diagnostic), "Failed to get current executable path: "@),
{
    lemma_messages_open_with_their_step(0, diagnostic);
}

/// On a platform without a way of launching, a launch whose lookup gave a path
/// ends with the same failure every time, and no process is asked for:
/// whatever the system would have answered to a request has no part in it.
pub proof fn lemma_unsupported_platform_asks_for_nothing<P>(
    executable: P,
    spawned: Result<u32, Seq<char>>,
)
    ensures
        first_step(Platform::Unsupported, Ok::<P, Seq<char>>(executable)) == StepView::<
            P,
        >::Finished(LaunchOutcomeView::Failure { message: unsupported_text() }),
        launch_outcome(Platform::Unsupported, Ok::<P, Seq<char>>(executable), spawned) == (
        LaunchOutcomeView::Failure { message: unsupported_text() }),
        unsupported_text().len() > 0,
{
    lemma_messages_open_with_their_step(0, Seq::empty());
}

/// A process is asked for exactly where the lookup gave a path and the platform
/// has a way of launching; the request then holds that very path.
pub proof fn lemma_request_is_made_of_the_path<P>(platform: Platform, lookup: Result<P, Seq<char>>)
    ensures
        first_step(platform, lookup) is Spawn <==> lookup is Ok && platform.supported(),
        first_step(platform, lookup) is Spawn ==> strategy(platform, lookup->Ok_0) == Some(
            first_step(platform, lookup)->Spawn_0,
        ),
{
}

/// Every launch ends in an outcome, and every outcome is well formed: a success
/// carries the message that names its process, a failure a message that is not
/// empty.
pub proof fn lemma_every_outcome_is_well_formed<P>(
    platform: Platform,
    lookup: Result<P, Seq<char>>,
    spawned: Result<u32, Seq<char>>,
)
    ensures
        launch_outcome(platform, lookup, spawned).well_formed(),
        launch_outcome(platform, lookup, spawned).message().len() > 0,
{
    match planned(platform, lookup) {
        Ok(_) => {
            match concluded(spawned) {
                Ok(process_id) => {
                    lemma_made_outcomes_are_well_formed(
                        process_id,
                        LaunchErrorView::UnsupportedPlatform,
                    );
                    lemma_messages_open_with_their_step(process_id, Seq::empty());
                },
                Err(error) => {
                    lemma_made_outcomes_are_well_formed(0, error);
                },
            }
        },
        Err(error) => {
            lemma_made_outcomes_are_well_formed(0, error);
        },
    }
}

/// Launches made one after another do not hold each other back. On a platform
/// with a way of launching, where each lookup gives a path and the system
/// creates a process each time, every launch is a success with the identifier
/// of its own process; and where the system gave different identifiers, the
/// outcomes differ, in identifier and in message.
pub proof fn lemma_launches_in_sequence<P>(
    platform: Platform,
    executables: Seq<P>,
    process_ids: Seq<u32>,
)
    requires
        platform.supported(),
        executables.len() == process_ids.len(),
    ensures
        forall|i: int|
            0 <= i < process_ids.len() ==> #[trigger] launch_outcome(
                platform,
                Ok::<P, Seq<char>>(executables[i]),
                Ok(process_ids[i]),
            ) == LaunchOutcomeView::spawned(process_ids[i]),
        forall|i: int, j: int|
            0 <= i < process_ids.len() && 0 <= j < process_ids.len() && process_ids[i]
                != process_ids[j] ==> (#[trigger] LaunchOutcomeView::spawned(
                process_ids[i],
            )).message() != (#[trigger] LaunchOutcomeView::spawned(process_ids[j])).message(),
{
    assert forall|i: int, j: int|
        0 <= i < process_ids.len() && 0 <= j < process_ids.len() && process_ids[i]
            != process_ids[j] implies (#[trigger] LaunchOutcomeView::spawned(
        process_ids[i],
    )).message() != (#[trigger] LaunchOutcomeView::spawned(process_ids[j])).message() by {
        lemma_spawned_text_injective(process_ids[i], process_ids[j]);
    }
}

} // verus!
