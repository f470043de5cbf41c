//! The build pipeline orchestrator.
//!
//! The orchestrator is a state machine.  The surrounding process owns
//! the outside world — path checks, the registry query, spawning
//! commands — and drives the machine: it hands each observation in as an
//! [`Event`], and the machine answers with the next [`Phase`] and the
//! one [`Action`] to perform.  Every decision of the pipeline is taken
//! here: a missing deployment root or recipe fails before any network
//! call, a published tag skips the build, an absent tag runs login,
//! build, tag and push in strict order, and the first failing command
//! aborts the rest.

use vstd::prelude::*;

use crate::checker::{
    repository_name, spec_repository_name, spec_tag_present, tag_present, url_well_formed,
    QueryOutcome,
};
use crate::command::{assemble_plan, plan_for_request, CommandStep};
use crate::request::BuildRequest;

verus! {

/// Why a pipeline ended without publishing.  The first three are
/// configuration faults, found before any command runs; the last names
/// the position of the command whose failure aborted the run.
#[derive(Clone, Copy, PartialEq, Eq, Structural, Debug)]
pub enum FailureReason {
    MissingDeploymentRoot,
    MissingDockerfile,
    MalformedRegistryUrl,
    CommandFailed { index: usize },
}

/// Where the pipeline stands.  `Running` carries the assembled command
/// sequence and the position of the command currently executing.
/// `Skipped`, `Done` and `Failed` are terminal: they accept no further
/// event.
#[derive(Debug)]
pub enum Phase {
    Init,
    CheckingRegistry { absolute_dockerfile: String },
    Running { plan: Vec<CommandStep>, next: usize },
    Skipped,
    Done,
    Failed { reason: FailureReason },
}

/// An observation handed in by the process driving the machine.
/// `PathsChecked` reports whether the deployment root and the recipe
/// inside it exist, along with the recipe resolved to an absolute path.
#[derive(Debug)]
pub enum Event {
    PathsChecked { root_exists: bool, dockerfile_exists: bool, absolute_dockerfile: String },
    RegistryAnswered { outcome: QueryOutcome },
    CommandFinished { success: bool },
}

/// What the driving process must do next: ask the registry whether the
/// tag exists in the named repository, run one command, or exit.
#[derive(Debug)]
pub enum Action {
    QueryRegistry { repository: String },
    RunCommand { step: CommandStep },
    ExitSuccess,
    ExitFailure,
}

/// Terminal phases end the pipeline; a failed run must start over.
pub open spec fn spec_terminal(phase: Phase) -> bool {
    match phase {
        Phase::Skipped | Phase::Done | Phase::Failed { .. } => true,
        _ => false,
    }
}

/// Which event each phase accepts: path checks first, then the registry
/// answer, then one answer per issued command.  Terminal phases accept
/// nothing.
pub open spec fn spec_accepts(phase: Phase, event: Event) -> bool {
    match (phase, event) {
        (Phase::Init, Event::PathsChecked { .. }) => true,
        (Phase::CheckingRegistry { .. }, Event::RegistryAnswered { .. }) => true,
        (Phase::Running { plan, next }, Event::CommandFinished { .. }) => next < plan.len(),
        _ => false,
    }
}

/// The transition relation of the orchestrator, written out case by
/// case: what the next phase and the issued action are for each phase
/// and event the machine accepts.
pub open spec fn spec_step_post(
    req: BuildRequest,
    root: Seq<char>,
    phase: Phase,
    event: Event,
    new_phase: Phase,
    action: Action,
) -> bool {
    match (phase, event) {
        (
            Phase::Init,
            Event::PathsChecked { root_exists, dockerfile_exists, absolute_dockerfile },
        ) => {
            if !root_exists {
                &&& new_phase == (Phase::Failed { reason: FailureReason::MissingDeploymentRoot })
                &&& action == Action::ExitFailure
            } else if !dockerfile_exists {
                &&& new_phase == (Phase::Failed { reason: FailureReason::MissingDockerfile })
                &&& action == Action::ExitFailure
            } else if !url_well_formed(req.registry_url@) {
                &&& new_phase == (Phase::Failed { reason: FailureReason::MalformedRegistryUrl })
                &&& action == Action::ExitFailure
            } else {
                &&& new_phase == (Phase::CheckingRegistry { absolute_dockerfile })
                &&& action matches Action::QueryRegistry { repository }
                &&& repository@ == spec_repository_name(req.registry_url@)
            }
        },
        (
            Phase::CheckingRegistry { absolute_dockerfile },
            Event::RegistryAnswered { outcome },
        ) => {
            if spec_tag_present(outcome) {
                &&& new_phase == Phase::Skipped
                &&& action == Action::ExitSuccess
            } else {
                &&& new_phase matches Phase::Running { plan, next }
                &&& next == 0
                &&& plan_for_request(plan@, req, absolute_dockerfile@, root)
                &&& action matches Action::RunCommand { step }
                &&& step@ == plan@[0]@
            }
        },
        (Phase::Running { plan, next }, Event::CommandFinished { success }) => {
            if !success {
                &&& new_phase == (Phase::Failed {
                    reason: (FailureReason::CommandFailed { index: next }),
                })
                &&& action == Action::ExitFailure
            } else if next + 1 < plan.len() {
                &&& new_phase == (Phase::Running { plan, next: (next + 1) as usize })
                &&& action matches Action::RunCommand { step }
                &&& step@ == plan@[next + 1]@
            } else {
                &&& new_phase == Phase::Done
                &&& action == Action::ExitSuccess
            }
        },
        _ => false,
    }
}

/// One transition of the orchestrator.  `deployment_root` is the build
/// context directory that the assembled build command names.
pub fn step(req: &BuildRequest, deployment_root: &str, phase: Phase, event: Event) -> (r: (
    Phase,
    Action,
))
    requires
        spec_accepts(phase, event),
    ensures
        spec_step_post(*req, deployment_root@, phase, event, r.0, r.1),
{
    match (phase, event) {
        (
            Phase::Init,
            Event::PathsChecked { root_exists, dockerfile_exists, absolute_dockerfile },
        ) => {
            if !root_exists {
                (Phase::Failed { reason: FailureReason::MissingDeploymentRoot }, Action::ExitFailure)
            } else if !dockerfile_exists {
                (Phase::Failed { reason: FailureReason::MissingDockerfile }, Action::ExitFailure)
            } else {
                match repository_name(req.registry_url.as_str()) {
                    None => (
                        Phase::Failed { reason: FailureReason::MalformedRegistryUrl },
                        Action::ExitFailure,
                    ),
                    Some(repository) => (
                        Phase::CheckingRegistry { absolute_dockerfile },
                        Action::QueryRegistry { repository },
                    ),
                }
            }
        },
        (Phase::CheckingRegistry { absolute_dockerfile }, Event::RegistryAnswered { outcome }) => {
            if tag_present(&outcome) {
                (Phase::Skipped, Action::ExitSuccess)
            } else {
                let plan = assemble_plan(req, absolute_dockerfile.as_str(), deployment_root);
                let first = plan[0].duplicate();
                (Phase::Running { plan, next: 0 }, Action::RunCommand { step: first })
            }
        },
        (Phase::Running { plan, next }, Event::CommandFinished { success }) => {
            if !success {
                (
                    Phase::Failed { reason: FailureReason::CommandFailed { index: next } },
                    Action::ExitFailure,
                )
            } else if next + 1 < plan.len() {
                let upcoming = plan[next + 1].duplicate();
                (Phase::Running { plan, next: next + 1 }, Action::RunCommand { step: upcoming })
            } else {
                (Phase::Done, Action::ExitSuccess)
            }
        },
        _ => vstd::pervasive::unreached(),
    }
}

/// How a pipeline ended, once its phase is terminal.
#[derive(Clone, Copy, PartialEq, Eq, Structural, Debug)]
pub enum ExitOutcome {
    Success,
    Skipped,
    Failed { reason: FailureReason },
}

/// The outcome of a terminal phase: `Skipped` for an already published
/// tag, `Success` for a completed run, `Failed` with its reason; `None`
/// while the pipeline is still under way.
pub fn outcome_of(phase: &Phase) -> (r: Option<ExitOutcome>)
    ensures
        r is Some <==> spec_terminal(*phase),
        match *phase {
            Phase::Skipped => r == Some(ExitOutcome::Skipped),
            Phase::Done => r == Some(ExitOutcome::Success),
            Phase::Failed { reason } => r == Some(ExitOutcome::Failed { reason }),
            _ => r is None,
        },
{
    match phase {
        Phase::Skipped => Some(ExitOutcome::Skipped),
        Phase::Done => Some(ExitOutcome::Success),
        Phase::Failed { reason } => Some(ExitOutcome::Failed { reason: *reason }),
        _ => None,
    }
}

/// The process exit code of an outcome: zero for a skipped or completed
/// run, one for any failure.
pub fn exit_code(outcome: &ExitOutcome) -> (r: u8)
    ensures
        r == 0 || r == 1,
        (r == 0) <==> !(*outcome matches ExitOutcome::Failed { .. }),
{
    match outcome {
        ExitOutcome::Failed { .. } => 1,
        _ => 0,
    }
}

/// A terminal phase accepts no further event: nothing happens after a
/// skip, a completion or a failure.
pub proof fn lemma_terminal_accepts_nothing(phase: Phase)
    requires
        spec_terminal(phase),
    ensures
        forall|e: Event| !spec_accepts(phase, e),
{
}

/// Law: a version tag the checker reports as already published makes
/// the orchestrator exit successfully without issuing any command.  The
/// answer moves the machine straight to `Skipped`, whose only action is
/// the successful exit; `Skipped` is terminal, so no command can ever
/// be issued afterwards.
pub proof fn lemma_present_tag_runs_nothing(
    req: BuildRequest,
    root: Seq<char>,
    absolute_dockerfile: String,
    outcome: QueryOutcome,
    new_phase: Phase,
    action: Action,
)
    requires
        spec_tag_present(outcome),
        spec_step_post(
            req,
            root,
            Phase::CheckingRegistry { absolute_dockerfile },
            Event::RegistryAnswered { outcome },
            new_phase,
            action,
        ),
    ensures
        new_phase == Phase::Skipped,
        action == Action::ExitSuccess,
        forall|e: Event| !spec_accepts(new_phase, e),
{
}

/// Law: a version tag reported absent — a failed query included —
/// starts the build, and with the full sequence: the machine enters
/// `Running` at position zero over the plan the request calls for
/// (login, build, tag, push, in that order), and the first issued
/// command is the plan's first.
pub proof fn lemma_absent_tag_builds(
    req: BuildRequest,
    root: Seq<char>,
    absolute_dockerfile: String,
    outcome: QueryOutcome,
    new_phase: Phase,
    action: Action,
)
    requires
        !spec_tag_present(outcome),
        spec_step_post(
            req,
            root,
            Phase::CheckingRegistry { absolute_dockerfile },
            Event::RegistryAnswered { outcome },
            new_phase,
            action,
        ),
    ensures
        ({
            &&& new_phase matches Phase::Running { plan, next }
            &&& next == 0
            &&& plan_for_request(plan@, req, absolute_dockerfile@, root)
            &&& action matches Action::RunCommand { step }
            &&& step@ == plan@[0]@
        }),
{
}

/// Law: while commands succeed they run strictly in plan order: after
/// the command at position `k` succeeds, the machine either issues the
/// command at position `k + 1` with the plan unchanged, or — when `k`
/// was the last position — ends the run with a successful exit and
/// accepts nothing further.
pub proof fn lemma_success_advances(
    req: BuildRequest,
    root: Seq<char>,
    plan: Vec<CommandStep>,
    k: usize,
    new_phase: Phase,
    action: Action,
)
    requires
        k < plan@.len(),
        spec_step_post(
            req,
            root,
            Phase::Running { plan, next: k },
            Event::CommandFinished { success: true },
            new_phase,
            action,
        ),
    ensures
        k + 1 < plan@.len() ==> ({
            &&& new_phase == (Phase::Running { plan, next: (k + 1) as usize })
            &&& action matches Action::RunCommand { step }
            &&& step@ == plan@[k + 1]@
        }),
        k + 1 == plan@.len() ==> ({
            &&& new_phase == Phase::Done
            &&& action == Action::ExitSuccess
            &&& forall|e: Event| !spec_accepts(new_phase, e)
        }),
{
}

/// Law: the first failing command aborts the whole pipeline.  The
/// machine enters a terminal failure naming the failing position, the
/// only action is the failing exit, and no further event is accepted —
/// in particular no later command in the sequence can run.
pub proof fn lemma_failure_halts(
    req: BuildRequest,
    root: Seq<char>,
    plan: Vec<CommandStep>,
    k: usize,
    new_phase: Phase,
    action: Action,
)
    requires
        k < plan@.len(),
        spec_step_post(
            req,
            root,
            Phase::Running { plan, next: k },
            Event::CommandFinished { success: false },
            new_phase,
            action,
        ),
    ensures
        new_phase == (Phase::Failed { reason: (FailureReason::CommandFailed { index: k }) }),
        action == Action::ExitFailure,
        forall|e: Event| !spec_accepts(new_phase, e),
{
}

/// A run of the orchestrator: `phases[0]` is where it starts, and each
/// accepted event `events[i]` moves the machine from `phases[i]` to
/// `phases[i + 1]` while issuing `actions[i]`.
pub open spec fn spec_run(
    req: BuildRequest,
    root: Seq<char>,
    phases: Seq<Phase>,
    events: Seq<Event>,
    actions: Seq<Action>,
) -> bool {
    &&& phases.len() == events.len() + 1
    &&& actions.len() == events.len()
    &&& forall|i: int| 0 <= i < events.len() ==> spec_accepts(phases[i], events[i])
    &&& forall|i: int|
        0 <= i < events.len() ==> spec_step_post(
            req,
            root,
            phases[i],
            events[i],
            phases[i + 1],
            actions[i],
        )
}

/// In a run from the initial phase whose registry answers all report
/// the tag present, the machine never reaches the `Running` phase.
proof fn lemma_present_tag_run_never_runs(
    req: BuildRequest,
    root: Seq<char>,
    phases: Seq<Phase>,
    events: Seq<Event>,
    actions: Seq<Action>,
    i: int,
)
    requires
        spec_run(req, root, phases, events, actions),
        phases[0] == Phase::Init,
        forall|j: int|
            0 <= j < events.len() ==> (#[trigger] events[j] matches Event::RegistryAnswered { outcome }
                ==> spec_tag_present(outcome)),
        0 <= i <= events.len(),
    ensures
        !(phases[i] matches Phase::Running { .. }),
    decreases i,
{
    if i > 0 {
        lemma_present_tag_run_never_runs(req, root, phases, events, actions, i - 1);
        assert(spec_accepts(phases[i - 1], events[i - 1]));
        assert(spec_step_post(req, root, phases[i - 1], events[i - 1], phases[i], actions[i - 1]));
        assert(events[i - 1] matches Event::RegistryAnswered { outcome } ==> spec_tag_present(
            outcome,
        ));
    }
}

/// Law, over a whole run: when every registry answer reports the
/// version tag already published, the orchestrator never issues a
/// single command — no build, no tag, no push — however long the run.
pub proof fn lemma_present_tag_run_issues_no_command(
    req: BuildRequest,
    root: Seq<char>,
    phases: Seq<Phase>,
    events: Seq<Event>,
    actions: Seq<Action>,
)
    requires
        spec_run(req, root, phases, events, actions),
        phases[0] == Phase::Init,
        forall|j: int|
            0 <= j < events.len() ==> (#[trigger] events[j] matches Event::RegistryAnswered { outcome }
                ==> spec_tag_present(outcome)),
    ensures
        forall|j: int| 0 <= j < actions.len() ==> !(#[trigger] actions[j] matches Action::RunCommand { .. }),
{
    assert forall|j: int|
        0 <= j < actions.len() implies !(#[trigger] actions[j] matches Action::RunCommand { .. }) by {
        lemma_present_tag_run_never_runs(req, root, phases, events, actions, j);
        assert(spec_accepts(phases[j], events[j]));
        assert(spec_step_post(req, root, phases[j], events[j], phases[j + 1], actions[j]));
        assert(events[j] matches Event::RegistryAnswered { outcome } ==> spec_tag_present(outcome));
    };
}

/// In a run from the start of the plan in which every command
/// succeeds, the machine walks the plan one position per event and
/// ends in `Done` when — and only when — the plan is exhausted.
proof fn lemma_successful_run_walks_the_plan(
    req: BuildRequest,
    root: Seq<char>,
    plan: Vec<CommandStep>,
    phases: Seq<Phase>,
    events: Seq<Event>,
    actions: Seq<Action>,
    i: int,
)
    requires
        spec_run(req, root, phases, events, actions),
        plan@.len() > 0,
        phases[0] == (Phase::Running { plan, next: 0 }),
        forall|j: int|
            0 <= j < events.len() ==> events[j] == (Event::CommandFinished { success: true }),
        0 <= i <= events.len(),
    ensures
        i <= plan@.len(),
        i < plan@.len() ==> ({
            &&& phases[i] matches Phase::Running { plan: p, next }
            &&& p == plan
            &&& next == i
        }),
        i == plan@.len() ==> phases[i] == Phase::Done && i == events.len(),
    decreases i,
{
    if i > 0 {
        lemma_successful_run_walks_the_plan(req, root, plan, phases, events, actions, i - 1);
        assert(spec_accepts(phases[i - 1], events[i - 1]));
        assert(spec_step_post(req, root, phases[i - 1], events[i - 1], phases[i], actions[i - 1]));
        assert(events[i - 1] == (Event::CommandFinished { success: true }));
        if i == plan@.len() && i < events.len() {
            assert(spec_accepts(phases[i], events[i]));
        }
    } else {
        if i == plan@.len() && i < events.len() {
            assert(spec_accepts(phases[i], events[i]));
        }
    }
}

/// Law, over a whole run: while every command succeeds, the commands
/// are issued strictly in plan order and none is skipped — the event
/// answering the command at position `j` issues the command at
/// position `j + 1` — and the run can only end, successfully, once the
/// whole plan has run.  The command at position zero was issued by the
/// transition that entered `Running`.
pub proof fn lemma_successful_run_follows_plan(
    req: BuildRequest,
    root: Seq<char>,
    plan: Vec<CommandStep>,
    phases: Seq<Phase>,
    events: Seq<Event>,
    actions: Seq<Action>,
)
    requires
        spec_run(req, root, phases, events, actions),
        plan@.len() > 0,
        phases[0] == (Phase::Running { plan, next: 0 }),
        forall|j: int|
            0 <= j < events.len() ==> events[j] == (Event::CommandFinished { success: true }),
    ensures
        events.len() <= plan@.len(),
        forall|j: int|
            0 <= j < events.len() && j + 1 < plan@.len() ==> ({
                &&& #[trigger] actions[j] matches Action::RunCommand { step }
                &&& step@ == plan@[j + 1]@
            }),
        forall|j: int|
            0 <= j < events.len() && j + 1 == plan@.len() ==> actions[j] == Action::ExitSuccess,
        events.len() == plan@.len() ==> phases[events.len() as int] == Phase::Done,
{
    lemma_successful_run_walks_the_plan(
        req,
        root,
        plan,
        phases,
        events,
        actions,
        events.len() as int,
    );
    assert forall|j: int| 0 <= j < events.len() implies ({
        &&& j + 1 < plan@.len() ==> ({
            &&& actions[j] matches Action::RunCommand { step }
            &&& step@ == plan@[j + 1]@
        })
        &&& j + 1 == plan@.len() ==> actions[j] == Action::ExitSuccess
    }) by {
        lemma_successful_run_walks_the_plan(req, root, plan, phases, events, actions, j);
        assert(spec_accepts(phases[j], events[j]));
        assert(spec_step_post(req, root, phases[j], events[j], phases[j + 1], actions[j]));
        assert(events[j] == (Event::CommandFinished { success: true }));
    };
}

/// Law, over a whole run: the first failing command ends the run at
/// once.  The machine answers it with the failing exit, records which
/// position failed, and accepts nothing afterwards, so no subsequent
/// command in the sequence can execute.
pub proof fn lemma_failing_command_ends_the_run(
    req: BuildRequest,
    root: Seq<char>,
    plan: Vec<CommandStep>,
    k: usize,
    phases: Seq<Phase>,
    events: Seq<Event>,
    actions: Seq<Action>,
)
    requires
        spec_run(req, root, phases, events, actions),
        events.len() >= 1,
        phases[0] == (Phase::Running { plan, next: k }),
        k < plan@.len(),
        events[0] == (Event::CommandFinished { success: false }),
    ensures
        events.len() == 1,
        actions[0] == Action::ExitFailure,
        phases[1] == (Phase::Failed { reason: (FailureReason::CommandFailed { index: k }) }),
{
    assert(spec_accepts(phases[0], events[0]));
    assert(spec_step_post(req, root, phases[0], events[0], phases[1], actions[0]));
    if events.len() > 1 {
        assert(spec_accepts(phases[1], events[1]));
    }
}

/// Law: a missing deployment root — or a deployment root without the
/// recipe — fails the pipeline on its very first transition: the only
/// action is the failing exit, and the failure is terminal.  No
/// registry query and no command is ever requested.
pub proof fn lemma_missing_paths_fail_first(
    req: BuildRequest,
    root: Seq<char>,
    root_exists: bool,
    dockerfile_exists: bool,
    absolute_dockerfile: String,
    new_phase: Phase,
    action: Action,
)
    requires
        !(root_exists && dockerfile_exists),
        spec_step_post(
            req,
            root,
            Phase::Init,
            Event::PathsChecked { root_exists, dockerfile_exists, absolute_dockerfile },
            new_phase,
            action,
        ),
    ensures
        !root_exists ==> new_phase == (Phase::Failed {
            reason: FailureReason::MissingDeploymentRoot,
        }),
        root_exists && !dockerfile_exists ==> new_phase == (Phase::Failed {
            reason: FailureReason::MissingDockerfile,
        }),
        action == Action::ExitFailure,
        forall|e: Event| !spec_accepts(new_phase, e),
{
}

} // verus!
