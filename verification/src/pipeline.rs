//! The clone as a whole: a machine that decides, one answer at a time, what
//! is to be done next.
//!
//! The machine does nothing to the outside world itself. It names an
//! [`Action`]; whoever drives it carries the action out and reports what
//! came of it as an [`Event`]. The stages follow one another in one order
//! only: the specifier is resolved; for a repository on GitHub the host is
//! looked up and the repository's metadata fetched; the clone is spawned,
//! its diagnostics are read to their end, and its exit is awaited; for a
//! fork the upstream remote is added. The first failure ends the run.

use vstd::prelude::*;
use crate::error::CloneError;
use crate::metadata::{
    canonical,
    credential,
    credential_for,
    HostEntry,
    HostEntryView,
    RepositoryMetadata,
    GITHUB_COM,
};
use crate::source::{resolved, Source, SourceView};
use crate::supervisor::{
    clone_command,
    clone_invocation,
    observed,
    unobserved,
    CloneOutcome,
    CloneOutcomeView,
    Invocation,
    InvocationView,
};
use crate::wiring::{add_upstream, chosen_directory, remote_add_invocation, upstream_directory};

verus! {

/// What the user asked for.
#[derive(Debug, PartialEq, Eq)]
pub struct CloneCommand {
    /// The repository specifier.
    pub repo: String,
    /// The directory to clone into; the clone picks one if none is named.
    pub directory: Option<String>,
    /// Whether `.git` is to stand in the root of the repository.
    pub colocate: bool,
    /// The name of the remote that is added when the repository is a fork.
    pub upstream_remote_name: String,
    /// Arguments handed on to the clone as they are.
    pub rest: Vec<String>,
}

/// A clone command, over character sequences.
pub struct CloneCommandView {
    pub repo: Seq<char>,
    pub directory: Option<Seq<char>>,
    pub colocate: bool,
    pub upstream_remote_name: Seq<char>,
    pub rest: Seq<Seq<char>>,
}

impl View for CloneCommand {
    type V = CloneCommandView;

    open spec fn view(&self) -> CloneCommandView {
        CloneCommandView {
            repo: self.repo@,
            directory: self.directory.deep_view(),
            colocate: self.colocate,
            upstream_remote_name: self.upstream_remote_name@,
            rest: self.rest.deep_view(),
        }
    }
}

/// How far the clone has come.
#[derive(Debug, PartialEq, Eq)]
pub enum Stage {
    /// The credential store is being asked about the host; `named` is the
    /// owner that the specifier gave, if it gave one.
    LookingUpHost { named: Option<String>, repo: String },
    /// The repository is being looked up.
    FetchingRepository { owner: String, repo: String },
    /// The clone is being started.
    Spawning { upstream: Option<String> },
    /// The clone runs, and its diagnostics are read.
    Reading { upstream: Option<String>, outcome: CloneOutcome },
    /// The diagnostics have ended, and the clone's exit is awaited.
    Waiting { upstream: Option<String>, outcome: CloneOutcome },
    /// The upstream remote is being added.
    AddingRemote,
    /// All is done.
    Succeeded,
    /// The run has ended on a failure.
    Failed(CloneError),
}

/// A stage, over character sequences.
pub enum StageView {
    LookingUpHost { named: Option<Seq<char>>, repo: Seq<char> },
    FetchingRepository { owner: Seq<char>, repo: Seq<char> },
    Spawning { upstream: Option<Seq<char>> },
    Reading { upstream: Option<Seq<char>>, outcome: CloneOutcomeView },
    Waiting { upstream: Option<Seq<char>>, outcome: CloneOutcomeView },
    AddingRemote,
    Succeeded,
    Failed(CloneError),
}

impl View for Stage {
    type V = StageView;

    open spec fn view(&self) -> StageView {
        match self {
            Stage::LookingUpHost { named, repo } => StageView::LookingUpHost {
                named: named.deep_view(),
                repo: repo@,
            },
            Stage::FetchingRepository { owner, repo } => StageView::FetchingRepository {
                owner: owner@,
                repo: repo@,
            },
            Stage::Spawning { upstream } => StageView::Spawning { upstream: upstream.deep_view() },
            Stage::Reading { upstream, outcome } => StageView::Reading {
                upstream: upstream.deep_view(),
                outcome: outcome@,
            },
            Stage::Waiting { upstream, outcome } => StageView::Waiting {
                upstream: upstream.deep_view(),
                outcome: outcome@,
            },
            Stage::AddingRemote => StageView::AddingRemote,
            Stage::Succeeded => StageView::Succeeded,
            Stage::Failed(error) => StageView::Failed(*error),
        }
    }
}

/// What came of the last action.
#[derive(Debug, PartialEq, Eq)]
pub enum Event {
    /// The credential store's entry for the host, if it has one.
    Host(Option<HostEntry>),
    /// The repository exists; `parent` is the address of the repository
    /// that it was forked from, if it is a fork.
    Repository { parent: Option<String> },
    /// The process runs.
    Spawned,
    /// One line of the clone's diagnostics.
    Line(String),
    /// The clone's diagnostics have ended.
    EndOfOutput,
    /// The process has exited.
    Exited { success: bool },
    /// The action could not be carried out.
    Failed,
}

/// An event, over character sequences.
pub enum EventView {
    Host(Option<HostEntryView>),
    Repository { parent: Option<Seq<char>> },
    Spawned,
    Line(Seq<char>),
    EndOfOutput,
    Exited { success: bool },
    Failed,
}

impl View for Event {
    type V = EventView;

    open spec fn view(&self) -> EventView {
        match self {
            Event::Host(entry) => EventView::Host(entry.deep_view()),
            Event::Repository { parent } => EventView::Repository { parent: parent.deep_view() },
            Event::Spawned => EventView::Spawned,
            Event::Line(line) => EventView::Line(line@),
            Event::EndOfOutput => EventView::EndOfOutput,
            Event::Exited { success } => EventView::Exited { success: *success },
            Event::Failed => EventView::Failed,
        }
    }
}

/// What is to be done next.
#[derive(Debug, PartialEq, Eq)]
pub enum Action {
    /// Ask the credential store for its entry for `hostname`.
    LookupHost { hostname: String },
    /// Look the repository up, authenticated by `token`.
    FetchRepository { owner: String, name: String, token: String },
    /// Start the clone, with its diagnostic stream captured and its output
    /// left as it is.
    Spawn(Invocation),
    /// Read the next line of the clone's diagnostics.
    ReadLine,
    /// Pass the line on to the user, then read the next.
    Echo(String),
    /// Wait for the clone to exit.
    Wait,
    /// Run the invocation to its end.
    Run(Invocation),
    /// Stop: all is done.
    Succeed,
    /// Stop, and report the failure.
    Fail(CloneError),
}

/// An action, over character sequences.
pub enum ActionView {
    LookupHost { hostname: Seq<char> },
    FetchRepository { owner: Seq<char>, name: Seq<char>, token: Seq<char> },
    Spawn(InvocationView),
    ReadLine,
    Echo(Seq<char>),
    Wait,
    Run(InvocationView),
    Succeed,
    Fail(CloneError),
}

impl View for Action {
    type V = ActionView;

    open spec fn view(&self) -> ActionView {
        match self {
            Action::LookupHost { hostname } => ActionView::LookupHost { hostname: hostname@ },
            Action::FetchRepository { owner, name, token } => ActionView::FetchRepository {
                owner: owner@,
                name: name@,
                token: token@,
            },
            Action::Spawn(invocation) => ActionView::Spawn(invocation@),
            Action::ReadLine => ActionView::ReadLine,
            Action::Echo(line) => ActionView::Echo(line@),
            Action::Wait => ActionView::Wait,
            Action::Run(invocation) => ActionView::Run(invocation@),
            Action::Succeed => ActionView::Succeed,
            Action::Fail(error) => ActionView::Fail(*error),
        }
    }
}

/// One run of the clone: what was asked for, and how far it has come.
#[derive(Debug, PartialEq, Eq)]
pub struct Pipeline {
    pub command: CloneCommand,
    pub stage: Stage,
}

/// A pipeline, over character sequences.
pub struct PipelineView {
    pub command: CloneCommandView,
    pub stage: StageView,
}

impl View for Pipeline {
    type V = PipelineView;

    open spec fn view(&self) -> PipelineView {
        PipelineView { command: self.command@, stage: self.stage@ }
    }
}

/// The clone of `url` that `command` asks for.
pub open spec fn spawning(command: CloneCommandView, url: Seq<char>) -> ActionView {
    ActionView::Spawn(clone_invocation(url, command.directory, command.colocate, command.rest))
}

/// The first stage and the first action: a repository on GitHub has its
/// host looked up, any other location is cloned at once.
pub open spec fn started(command: CloneCommandView) -> (PipelineView, ActionView) {
    match resolved(command.repo) {
        SourceView::GitHub { owner, repo } => (
            PipelineView { command, stage: StageView::LookingUpHost { named: owner, repo } },
            ActionView::LookupHost { hostname: GITHUB_COM@ },
        ),
        SourceView::Web(url) => (
            PipelineView { command, stage: StageView::Spawning { upstream: None } },
            spawning(command, url),
        ),
    }
}

/// The run ends on `error`.
pub open spec fn failed(command: CloneCommandView, error: CloneError) -> (PipelineView, ActionView) {
    (PipelineView { command, stage: StageView::Failed(error) }, ActionView::Fail(error))
}

/// What follows the clone's exit. A clone that failed ends the run. After
/// one that succeeded, a repository that is no fork is done; a fork gets its
/// remote, in the directory that the user named or else in the one that
/// the clone reported, and without either the run fails.
pub open spec fn concluded(
    command: CloneCommandView,
    upstream: Option<Seq<char>>,
    outcome: CloneOutcomeView,
) -> (PipelineView, ActionView) {
    if !outcome.exit_success {
        failed(command, CloneError::CloneProcess)
    } else {
        match upstream {
            None => (PipelineView { command, stage: StageView::Succeeded }, ActionView::Succeed),
            Some(url) => match chosen_directory(command.directory, outcome.discovered_directory) {
                None => failed(command, CloneError::MissingDirectory),
                Some(directory) => (
                    PipelineView { command, stage: StageView::AddingRemote },
                    ActionView::Run(
                        remote_add_invocation(directory, command.upstream_remote_name, url),
                    ),
                ),
            },
        }
    }
}

/// The stage and the action that follow `event`. An event that does not
/// answer the action that was pending counts as that action's failure.
pub open spec fn next(pipeline: PipelineView, event: EventView) -> (PipelineView, ActionView) {
    let command = pipeline.command;
    match pipeline.stage {
        StageView::LookingUpHost { named, repo } => {
            let host = match event {
                EventView::Host(entry) => entry,
                _ => None,
            };
            match credential_for(named, host) {
                Ok(found) => (
                    PipelineView {
                        command,
                        stage: StageView::FetchingRepository { owner: found.owner, repo },
                    },
                    ActionView::FetchRepository {
                        owner: found.owner,
                        name: repo,
                        token: found.token,
                    },
                ),
                Err(error) => failed(command, error),
            }
        },
        StageView::FetchingRepository { owner, repo } => match event {
            EventView::Repository { parent } => (
                PipelineView { command, stage: StageView::Spawning { upstream: parent } },
                spawning(command, canonical(owner, repo)),
            ),
            _ => failed(command, CloneError::RemoteLookup),
        },
        StageView::Spawning { upstream } => match event {
            EventView::Spawned => (
                PipelineView {
                    command,
                    stage: StageView::Reading { upstream, outcome: unobserved() },
                },
                ActionView::ReadLine,
            ),
            _ => failed(command, CloneError::CloneProcess),
        },
        StageView::Reading { upstream, outcome } => match event {
            EventView::Line(line) => (
                PipelineView {
                    command,
                    stage: StageView::Reading { upstream, outcome: observed(outcome, line) },
                },
                ActionView::Echo(line),
            ),
            EventView::EndOfOutput => (
                PipelineView { command, stage: StageView::Waiting { upstream, outcome } },
                ActionView::Wait,
            ),
            _ => failed(command, CloneError::CloneProcess),
        },
        StageView::Waiting { upstream, outcome } => match event {
            EventView::Exited { success } => concluded(
                command,
                upstream,
                CloneOutcomeView { exit_success: success, ..outcome },
            ),
            _ => failed(command, CloneError::CloneProcess),
        },
        StageView::AddingRemote => match event {
            EventView::Exited { success: true } => (
                PipelineView { command, stage: StageView::Succeeded },
                ActionView::Succeed,
            ),
            _ => failed(command, CloneError::RemoteWiring),
        },
        StageView::Succeeded => (pipeline, ActionView::Succeed),
        StageView::Failed(error) => (pipeline, ActionView::Fail(error)),
    }
}

/// A copy of `text`.
fn copied(text: &Option<String>) -> (copy: Option<String>)
    ensures
        copy.deep_view() == text.deep_view(),
{
    match text {
        Some(s) => Some(s.clone()),
        None => None,
    }
}

/// The action that starts the clone of `url`.
fn spawn(command: &CloneCommand, url: &str) -> (action: Action)
    ensures
        action@ == spawning(command@, url@),
{
    let destination: Option<&str> = match &command.directory {
        Some(directory) => Some(directory.as_str()),
        None => None,
    };
    Action::Spawn(clone_command(url, destination, command.colocate, &command.rest))
}

/// Ends the run on `error`.
fn fail(command: CloneCommand, error: CloneError) -> (r: (Pipeline, Action))
    ensures
        (r.0@, r.1@) == failed(command@, error),
{
    (Pipeline { command, stage: Stage::Failed(error) }, Action::Fail(error))
}

/// Decides what follows the clone's exit.
fn conclude(command: CloneCommand, upstream: Option<String>, outcome: CloneOutcome) -> (r: (
    Pipeline,
    Action,
))
    ensures
        (r.0@, r.1@) == concluded(command@, upstream.deep_view(), outcome@),
{
    if !outcome.exit_success {
        return fail(command, CloneError::CloneProcess);
    }
    match upstream {
        None => (Pipeline { command, stage: Stage::Succeeded }, Action::Succeed),
        Some(url) => {
            match upstream_directory(copied(&command.directory), outcome.discovered_directory) {
                Err(error) => fail(command, error),
                Ok(directory) => {
                    let invocation = add_upstream(
                        directory.as_str(),
                        command.upstream_remote_name.as_str(),
                        url.as_str(),
                    );
                    (Pipeline { command, stage: Stage::AddingRemote }, Action::Run(invocation))
                },
            }
        },
    }
}

impl Pipeline {
    /// Begins a run: resolves the specifier and names the first action.
    pub fn start(command: CloneCommand) -> (r: (Pipeline, Action))
        ensures
            (r.0@, r.1@) == started(command@),
    {
        match Source::resolve(command.repo.as_str()) {
            Source::GitHub { owner, repo } => (
                Pipeline { command, stage: Stage::LookingUpHost { named: owner, repo } },
                Action::LookupHost { hostname: GITHUB_COM.to_owned() },
            ),
            Source::Web(url) => {
                let action = spawn(&command, url.as_str());
                (Pipeline { command, stage: Stage::Spawning { upstream: None } }, action)
            },
        }
    }

    /// Takes in what came of the last action, and names the next.
    pub fn step(self, event: Event) -> (r: (Pipeline, Action))
        ensures
            (r.0@, r.1@) == next(self@, event@),
    {
        let Pipeline { command, stage } = self;
        match stage {
            Stage::LookingUpHost { named, repo } => {
                let host = match event {
                    Event::Host(entry) => entry,
                    _ => None,
                };
                match credential(named, host) {
                    Ok(found) => {
                        let action = Action::FetchRepository {
                            owner: found.owner.clone(),
                            name: repo.clone(),
                            token: found.token,
                        };
                        (
                            Pipeline {
                                command,
                                stage: Stage::FetchingRepository { owner: found.owner, repo },
                            },
                            action,
                        )
                    },
                    Err(error) => fail(command, error),
                }
            },
            Stage::FetchingRepository { owner, repo } => match event {
                Event::Repository { parent } => {
                    let metadata = RepositoryMetadata::new(owner.as_str(), repo.as_str(), parent);
                    let action = spawn(&command, metadata.canonical_url.as_str());
                    (
                        Pipeline {
                            command,
                            stage: Stage::Spawning { upstream: metadata.fork_parent },
                        },
                        action,
                    )
                },
                _ => fail(command, CloneError::RemoteLookup),
            },
            Stage::Spawning { upstream } => match event {
                Event::Spawned => (
                    Pipeline {
                        command,
                        stage: Stage::Reading { upstream, outcome: CloneOutcome::new() },
                    },
                    Action::ReadLine,
                ),
                _ => fail(command, CloneError::CloneProcess),
            },
            Stage::Reading { upstream, outcome } => match event {
                Event::Line(line) => {
                    let mut outcome = outcome;
                    outcome.observe_line(line.as_str());
                    (
                        Pipeline { command, stage: Stage::Reading { upstream, outcome } },
                        Action::Echo(line),
                    )
                },
                Event::EndOfOutput => (
                    Pipeline { command, stage: Stage::Waiting { upstream, outcome } },
                    Action::Wait,
                ),
                _ => fail(command, CloneError::CloneProcess),
            },
            Stage::Waiting { upstream, outcome } => match event {
                Event::Exited { success } => {
                    let mut outcome = outcome;
                    outcome.finish(success);
                    conclude(command, upstream, outcome)
                },
                _ => fail(command, CloneError::CloneProcess),
            },
            Stage::AddingRemote => match event {
                Event::Exited { success: true } => (
                    Pipeline { command, stage: Stage::Succeeded },
                    Action::Succeed,
                ),
                _ => fail(command, CloneError::RemoteWiring),
            },
            Stage::Succeeded => (Pipeline { command, stage: Stage::Succeeded }, Action::Succeed),
            Stage::Failed(error) => (
                Pipeline { command, stage: Stage::Failed(error) },
                Action::Fail(error),
            ),
        }
    }
}

/// The stage and the action that a run has come to after `events`, in
/// order, from its start.
pub open spec fn ran(command: CloneCommandView, events: Seq<EventView>) -> (
    PipelineView,
    ActionView,
)
    decreases events.len(),
{
    if events.len() == 0 {
        started(command)
    } else {
        next(ran(command, events.drop_last()).0, events.last())
    }
}

/// The stage holds nothing that was learned from a host or a repository.
pub open spec fn knows_no_upstream(stage: StageView) -> bool {
    match stage {
        StageView::Spawning { upstream } => upstream is None,
        StageView::Reading { upstream, .. } => upstream is None,
        StageView::Waiting { upstream, .. } => upstream is None,
        StageView::Succeeded => true,
        StageView::Failed(_) => true,
        _ => false,
    }
}

/// The action asks nothing of the host, and adds no remote.
pub open spec fn is_clone_only(action: ActionView) -> bool {
    !(action is LookupHost) && !(action is FetchRepository) && !(action is Run)
}

/// A location that is no specifier is cloned at once, as it was given:
/// whatever happens then, no host is looked up, no repository is fetched,
/// and no remote is added.
pub proof fn law_location_is_only_cloned(command: CloneCommandView, events: Seq<EventView>)
    requires
        resolved(command.repo) is Web,
    ensures
        started(command).1 == spawning(command, command.repo),
        knows_no_upstream(ran(command, events).0.stage),
        is_clone_only(ran(command, events).1),
    decreases events.len(),
{
    if events.len() > 0 {
        law_location_is_only_cloned(command, events.drop_last());
    }
}

/// The address that is cloned for a repository on GitHub is made from the
/// owner and the name alone: the repository's parent has no part in it.
pub proof fn law_address_ignores_parent(
    command: CloneCommandView,
    owner: Seq<char>,
    repo: Seq<char>,
    parent: Option<Seq<char>>,
)
    ensures
        next(
            PipelineView { command, stage: StageView::FetchingRepository { owner, repo } },
            EventView::Repository { parent },
        ).1 == spawning(command, canonical(owner, repo)),
{
}

/// Every line is passed on to the user, whether or not a directory is
/// known already, and the clone's exit is awaited only once its
/// diagnostics have ended.
pub proof fn law_lines_before_exit(pipeline: PipelineView, event: EventView)
    ensures
        pipeline.stage is Reading && event is Line ==> next(pipeline, event).1 == ActionView::Echo(
            event->Line_0,
        ),
        next(pipeline, event).1 is Wait <==> pipeline.stage is Reading && event is EndOfOutput,
{
}

/// A clone that did not exit successfully ends the run on that failure,
/// fork or not: no remote is added.
pub proof fn law_failed_clone_is_not_wired(
    command: CloneCommandView,
    upstream: Option<Seq<char>>,
    outcome: CloneOutcomeView,
    event: EventView,
)
    requires
        event != (EventView::Exited { success: true }),
    ensures
        next(PipelineView { command, stage: StageView::Waiting { upstream, outcome } }, event)
            == failed(command, CloneError::CloneProcess),
{
}

/// After a successful clone of a fork, the remote is added in the
/// directory that the user named, else in the one that the clone reported;
/// where there is neither, the run fails for want of a directory.
pub proof fn law_fork_is_wired(
    command: CloneCommandView,
    upstream: Seq<char>,
    outcome: CloneOutcomeView,
)
    ensures
        ({
            let after = next(
                PipelineView { command, stage: StageView::Waiting { upstream: Some(upstream), outcome } },
                EventView::Exited { success: true },
            );
            match chosen_directory(command.directory, outcome.discovered_directory) {
                Some(directory) => after.1 == ActionView::Run(
                    remote_add_invocation(directory, command.upstream_remote_name, upstream),
                ),
                None => after == failed(command, CloneError::MissingDirectory),
            }
        }),
{
}

/// A run that has ended stays as it ended, whatever is reported to it.
pub proof fn law_ended_run_stays_ended(pipeline: PipelineView, event: EventView)
    requires
        pipeline.stage is Succeeded || pipeline.stage is Failed,
    ensures
        next(pipeline, event).0 == pipeline,
        pipeline.stage is Succeeded ==> next(pipeline, event).1 == ActionView::Succeed,
        pipeline.stage is Failed ==> next(pipeline, event).1 == ActionView::Fail(
            pipeline.stage->Failed_0,
        ),
{
}

} // verus!
