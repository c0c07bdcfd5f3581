//! The run as a state machine. The caller does what an [`Action`] says, reports
//! what happened as an [`Event`], and is told the next action.
//!
//! A run asks for the account name, fetches the account's repositories, has
//! the user tick some of them, asks for the destination directory and then
//! starts one clone after the other. It never goes back to an earlier
//! question. Ticking nothing is no failure: the destination is still asked
//! for, nothing is cloned, and the run ends in success.

use crate::git::{
    clone_command, clone_plan, clone_selected, lemma_one_command_per_selected, CloneCommand,
    CommandModel,
};
use crate::github::{
    interpret, reading, repositories_request, request, Reply, ReplyModel, Request, RequestModel,
};
use crate::prompt::{
    destination_dir, destination_dir_prompt, repos_to_clone, repos_to_clone_prompt, username,
    username_prompt, Checklist, ChecklistModel, TextPrompt, TextPromptModel,
};
use crate::report::{stage_of, Failure, FailureModel, Outcome, OutcomeModel, Stage};
use crate::repository::{names_of, RepositoryIndex, RepositoryModel};
use crate::validation::{
    is_account_name, is_directory, is_valid_directory, is_valid_username, PathMetadata,
};
use vstd::prelude::*;

verus! {

/// Where a run stands.
#[derive(Debug, PartialEq, Eq)]
pub enum State {
    /// The account name has been asked for.
    AwaitingAccountName,
    /// The request for the repositories has been handed out.
    Fetching,
    /// The checklist of repositories has been handed out.
    Selecting { index: RepositoryIndex },
    /// The destination directory has been asked for.
    AwaitingDestination { index: RepositoryIndex, selection: Vec<usize> },
    /// `current` has been handed out to be started; `pending` follow it, first
    /// to last.
    Cloning { current: CloneCommand, pending: Vec<CloneCommand> },
    /// The run is over.
    Finished(Outcome),
}

/// The mathematical value of a [`State`].
pub enum StateModel {
    AwaitingAccountName,
    Fetching,
    Selecting { repositories: Seq<RepositoryModel> },
    AwaitingDestination { repositories: Seq<RepositoryModel>, selection: Seq<usize> },
    Cloning { current: CommandModel, pending: Seq<CommandModel> },
    Finished(OutcomeModel),
}

impl View for State {
    type V = StateModel;

    open spec fn view(&self) -> StateModel {
        match self {
            State::AwaitingAccountName => StateModel::AwaitingAccountName,
            State::Fetching => StateModel::Fetching,
            State::Selecting { index } => StateModel::Selecting { repositories: index@ },
            State::AwaitingDestination { index, selection } => StateModel::AwaitingDestination {
                repositories: index@,
                selection: selection@,
            },
            State::Cloning { current, pending } => StateModel::Cloning {
                current: current@,
                pending: pending.deep_view(),
            },
            State::Finished(outcome) => StateModel::Finished(outcome@),
        }
    }
}

/// What the caller reports.
#[derive(Debug, PartialEq, Eq)]
pub enum Event {
    /// The user answered the question for the account name.
    AccountName(String),
    /// The request for the repositories was sent, and this came back.
    Reply(Reply),
    /// The user confirmed the checklist with these positions ticked, in the
    /// order in which the checklist gave them.
    Selection(Vec<usize>),
    /// The user answered the question for the destination with `path`, and a
    /// look at that path found `lookup`.
    Destination { path: String, lookup: Option<PathMetadata> },
    /// The command that was handed out has been started.
    Launched,
    /// The command that was handed out could not be started.
    LaunchFailed,
    /// The user broke off, or the input ended.
    Interrupted,
}

/// The mathematical value of an [`Event`].
pub enum EventModel {
    AccountName(Seq<char>),
    Reply(ReplyModel),
    Selection(Seq<usize>),
    Destination { path: Seq<char>, lookup: Option<PathMetadata> },
    Launched,
    LaunchFailed,
    Interrupted,
}

impl View for Event {
    type V = EventModel;

    open spec fn view(&self) -> EventModel {
        match self {
            Event::AccountName(text) => EventModel::AccountName(text@),
            Event::Reply(reply) => EventModel::Reply(reply@),
            Event::Selection(selection) => EventModel::Selection(selection@),
            Event::Destination { path, lookup } => EventModel::Destination {
                path: path@,
                lookup: *lookup,
            },
            Event::Launched => EventModel::Launched,
            Event::LaunchFailed => EventModel::LaunchFailed,
            Event::Interrupted => EventModel::Interrupted,
        }
    }
}

/// What the caller is to do next.
#[derive(Debug, PartialEq, Eq)]
pub enum Action {
    /// Ask for the account name, and report the answer as
    /// [`Event::AccountName`].
    AskAccountName(TextPrompt),
    /// Send the request, and report what came back as [`Event::Reply`].
    Fetch(Request),
    /// Show the checklist, and report the ticked positions as
    /// [`Event::Selection`].
    AskSelection(Checklist),
    /// Ask for the destination directory, look at the path that was given, and
    /// report both as [`Event::Destination`].
    AskDestination(TextPrompt),
    /// Start the command without waiting for it to end, and report
    /// [`Event::Launched`] or [`Event::LaunchFailed`].
    Launch(CloneCommand),
    /// End the process with the outcome's status, after telling the user of a
    /// failure.
    Exit(Outcome),
}

/// The mathematical value of an [`Action`].
pub enum ActionModel {
    AskAccountName(TextPromptModel),
    Fetch(RequestModel),
    AskSelection(ChecklistModel),
    AskDestination(TextPromptModel),
    Launch(CommandModel),
    Exit(OutcomeModel),
}

impl View for Action {
    type V = ActionModel;

    open spec fn view(&self) -> ActionModel {
        match self {
            Action::AskAccountName(prompt) => ActionModel::AskAccountName(prompt@),
            Action::Fetch(request) => ActionModel::Fetch(request@),
            Action::AskSelection(checklist) => ActionModel::AskSelection(checklist@),
            Action::AskDestination(prompt) => ActionModel::AskDestination(prompt@),
            Action::Launch(command) => ActionModel::Launch(command@),
            Action::Exit(outcome) => ActionModel::Exit(outcome@),
        }
    }
}

/// How a run begins: the account name is asked for.
pub open spec fn initial() -> (StateModel, ActionModel) {
    (StateModel::AwaitingAccountName, ActionModel::AskAccountName(username_prompt(false)))
}

/// The stage in which a run stands or, once it is over, ended: a run that
/// succeeded ended in the last stage, one that failed in the stage of its
/// failure.
pub open spec fn stage_in(state: StateModel) -> Stage {
    match state {
        StateModel::AwaitingAccountName => Stage::Prompting,
        StateModel::Fetching => Stage::Fetching,
        StateModel::Selecting { .. } => Stage::Prompting,
        StateModel::AwaitingDestination { .. } => Stage::Prompting,
        StateModel::Cloning { .. } => Stage::Cloning,
        StateModel::Finished(OutcomeModel::Success) => Stage::Cloning,
        StateModel::Finished(OutcomeModel::Failed(failure)) => stage_of(failure),
    }
}

/// The run ends with `outcome`.
pub open spec fn conclude(outcome: OutcomeModel) -> (StateModel, ActionModel) {
    (StateModel::Finished(outcome), ActionModel::Exit(outcome))
}

/// The run is given up because of `failure`.
pub open spec fn give_up(failure: FailureModel) -> (StateModel, ActionModel) {
    conclude(OutcomeModel::Failed(failure))
}

/// The first of `commands` is handed out and the others are kept for later;
/// with no command left, the run ends in success.
pub open spec fn launch_next(commands: Seq<CommandModel>) -> (StateModel, ActionModel) {
    if commands.len() == 0 {
        conclude(OutcomeModel::Success)
    } else {
        (
            StateModel::Cloning { current: commands.first(), pending: commands.drop_first() },
            ActionModel::Launch(commands.first()),
        )
    }
}

/// The state that follows `state` on `event`, and the action that goes with it.
///
/// - A finished run stays as it is and says again how it ended.
/// - An interruption gives the run up, whatever it was waiting for.
/// - An account name that is none is asked for again.
/// - A fetch that failed, for whatever reason, gives the run up.
/// - A destination that is no directory is asked for again.
/// - A clone that could not be started gives the run up: the clones that
///   were still to come are not started.
/// - Any other event that the state was not waiting for gives the run up.
pub open spec fn next(state: StateModel, event: EventModel) -> (StateModel, ActionModel) {
    match state {
        StateModel::Finished(outcome) => conclude(outcome),
        _ => match event {
            EventModel::Interrupted => give_up(FailureModel::Interrupted(stage_in(state))),
            _ => match (state, event) {
                (StateModel::AwaitingAccountName, EventModel::AccountName(text)) => {
                    if is_account_name(text) {
                        (StateModel::Fetching, ActionModel::Fetch(repositories_request(text)))
                    } else {
                        (state, ActionModel::AskAccountName(username_prompt(true)))
                    }
                },
                (StateModel::Fetching, EventModel::Reply(reply)) => match reading(reply) {
                    Ok(repositories) => (
                        StateModel::Selecting { repositories },
                        ActionModel::AskSelection(repos_to_clone_prompt(names_of(repositories))),
                    ),
                    Err(error) => give_up(FailureModel::Fetch(error)),
                },
                (StateModel::Selecting { repositories }, EventModel::Selection(selection)) => (
                    StateModel::AwaitingDestination { repositories, selection },
                    ActionModel::AskDestination(destination_dir_prompt(false)),
                ),
                (
                    StateModel::AwaitingDestination { repositories, selection },
                    EventModel::Destination { path, lookup },
                ) => {
                    if is_directory(lookup) {
                        launch_next(clone_plan(repositories, selection, path))
                    } else {
                        (state, ActionModel::AskDestination(destination_dir_prompt(true)))
                    }
                },
                (StateModel::Cloning { current, pending }, EventModel::Launched) => launch_next(
                    pending,
                ),
                (StateModel::Cloning { current, pending }, EventModel::LaunchFailed) => give_up(
                    FailureModel::Launch(current),
                ),
                _ => give_up(FailureModel::OutOfTurn(stage_in(state))),
            },
        },
    }
}

/// What comes of telling a run that stands in `state` the `events` one after
/// the other: where it stands at the end, and the actions in their order.
pub open spec fn run(state: StateModel, events: Seq<EventModel>) -> (StateModel, Seq<ActionModel>)
    decreases events.len(),
{
    if events.len() == 0 {
        (state, Seq::empty())
    } else {
        let (before, actions) = run(state, events.drop_last());
        let (after, action) = next(before, events.last());
        (after, actions.push(action))
    }
}

/// `count` reports of a command that was started.
pub open spec fn launched(count: nat) -> Seq<EventModel> {
    Seq::new(count, |k: int| EventModel::Launched)
}

/// The actions that hand out `commands` one by one.
pub open spec fn launches(commands: Seq<CommandModel>) -> Seq<ActionModel> {
    commands.map_values(|command: CommandModel| ActionModel::Launch(command))
}

/// Telling a run some events and then some more is telling it all of them.
pub proof fn lemma_run_in_two_parts(
    state: StateModel,
    earlier: Seq<EventModel>,
    later: Seq<EventModel>,
)
    ensures
        run(state, earlier + later) == ({
            let (middle, first) = run(state, earlier);
            let (end, second) = run(middle, later);
            (end, first + second)
        }),
    decreases later.len(),
{
    if later.len() == 0 {
        assert(earlier + later =~= earlier);
    } else {
        lemma_run_in_two_parts(state, earlier, later.drop_last());
        assert((earlier + later).drop_last() =~= earlier + later.drop_last());
    }
}

/// A finished run stays finished whatever it is told, and answers every event
/// by saying again how it ended.
pub proof fn lemma_finished_run_stays_finished(outcome: OutcomeModel, events: Seq<EventModel>)
    ensures
        run(StateModel::Finished(outcome), events) == (
            StateModel::Finished(outcome),
            Seq::new(events.len(), |k: int| ActionModel::Exit(outcome)),
        ),
    decreases events.len(),
{
    if events.len() > 0 {
        lemma_finished_run_stays_finished(outcome, events.drop_last());
    }
}

/// A command is handed out only on two occasions: when a destination that
/// is a directory has just been given, and when the command before it has
/// been started. An interruption, a failed fetch and a failed start hand out
/// none.
pub proof fn lemma_launch_only_when_due(state: StateModel, event: EventModel)
    requires
        next(state, event).1 is Launch,
    ensures
        ({
            ||| state is AwaitingDestination && event is Destination && is_directory(
                event->lookup,
            )
            ||| state is Cloning && event is Launched
        }),
        ({
            &&& next(state, event).0 is Cloning
            &&& next(state, event).1 == ActionModel::Launch(next(state, event).0->current)
        }),
{
}

/// How far a run has come: the questions and the fetch in their order, then
/// the cloning, then the end.
pub open spec fn progress(state: StateModel) -> nat {
    match state {
        StateModel::AwaitingAccountName => 0,
        StateModel::Fetching => 1,
        StateModel::Selecting { .. } => 2,
        StateModel::AwaitingDestination { .. } => 3,
        StateModel::Cloning { .. } => 4,
        StateModel::Finished(_) => 5,
    }
}

/// A run never goes back: whatever it is told, it stays where it is or moves
/// on, and where it moves on without ending it moves to what comes next.
pub proof fn lemma_step_never_goes_back(state: StateModel, event: EventModel)
    ensures
        progress(state) <= progress(next(state, event).0),
        !(next(state, event).0 is Finished) ==> progress(next(state, event).0) <= progress(state)
            + 1,
{
}

/// A run never goes back, however many events it is told.
pub proof fn lemma_run_never_goes_back(state: StateModel, events: Seq<EventModel>)
    ensures
        progress(state) <= progress(run(state, events).0),
    decreases events.len(),
{
    if events.len() > 0 {
        lemma_run_never_goes_back(state, events.drop_last());
        lemma_step_never_goes_back(run(state, events.drop_last()).0, events.last());
    }
}

/// The number of requests among `actions`.
pub open spec fn fetches(actions: Seq<ActionModel>) -> nat
    decreases actions.len(),
{
    if actions.len() == 0 {
        0
    } else if actions.last() is Fetch {
        fetches(actions.drop_last()) + 1
    } else {
        fetches(actions.drop_last())
    }
}

/// A run sends one request at most, and none while it still waits for the
/// account name: a fetch that failed is not tried again.
pub proof fn lemma_at_most_one_fetch(events: Seq<EventModel>)
    ensures
        ({
            let (end, actions) = run(initial().0, events);
            &&& fetches(actions) <= 1
            &&& end is AwaitingAccountName ==> fetches(actions) == 0
        }),
    decreases events.len(),
{
    if events.len() > 0 {
        let (before, earlier) = run(initial().0, events.drop_last());
        let (after, action) = next(before, events.last());
        lemma_at_most_one_fetch(events.drop_last());
        assert(earlier.push(action).drop_last() =~= earlier);
    }
}

/// Whether a run has come to the cloning: it is cloning, or it is over and
/// ended in that stage.
pub open spec fn came_to_cloning(state: StateModel) -> bool {
    (state is Cloning || state is Finished) && stage_in(state) == Stage::Cloning
}

/// A run that has not come to the cloning has started no clone. So a run
/// that is still asking or fetching, and one that ended because the user broke
/// off before the cloning or because the fetch failed, has handed out no
/// command.
pub proof fn lemma_no_clone_before_cloning(events: Seq<EventModel>)
    ensures
        ({
            let (end, actions) = run(initial().0, events);
            !came_to_cloning(end) ==> forall|k: int|
                0 <= k < actions.len() ==> !(#[trigger] actions[k] is Launch)
        }),
    decreases events.len(),
{
    if events.len() > 0 {
        lemma_no_clone_before_cloning(events.drop_last());
    }
}

/// While every command can be started, a run that is cloning hands out the
/// commands that it holds one by one, first to last, and then ends in
/// success.
pub proof fn lemma_pending_clones_start_in_order(current: CommandModel, pending: Seq<CommandModel>)
    ensures
        run(StateModel::Cloning { current, pending }, launched(pending.len() + 1)) == (
            StateModel::Finished(OutcomeModel::Success),
            launches(pending).push(ActionModel::Exit(OutcomeModel::Success)),
        ),
    decreases pending.len(),
{
    let state = StateModel::Cloning { current, pending };
    let one = seq![EventModel::Launched];
    assert(run(state, one) == (next(state, EventModel::Launched).0, seq![
        next(state, EventModel::Launched).1,
    ])) by {
        assert(run(state, one.drop_last()) == (state, Seq::<ActionModel>::empty()));
    }
    if pending.len() == 0 {
        assert(launched(1) =~= one);
    } else {
        let rest = pending.drop_first();
        lemma_pending_clones_start_in_order(pending.first(), rest);
        lemma_run_in_two_parts(state, one, launched(rest.len() + 1));
        assert(launched(pending.len() + 1) =~= one + launched(rest.len() + 1));
    }
}

/// Once a destination that is a directory has been given, and while every
/// command can be started, the run hands out exactly the commands of the plan,
/// each once and in the plan's order, and then ends in success. With an empty
/// plan it hands out none and ends in success at once.
pub proof fn lemma_plan_is_carried_out(
    repositories: Seq<RepositoryModel>,
    selection: Seq<usize>,
    path: Seq<char>,
    lookup: Option<PathMetadata>,
)
    requires
        is_directory(lookup),
    ensures
        ({
            let plan = clone_plan(repositories, selection, path);
            run(
                StateModel::AwaitingDestination { repositories, selection },
                seq![EventModel::Destination { path, lookup }] + launched(plan.len()),
            ) == (
                StateModel::Finished(OutcomeModel::Success),
                launches(plan).push(ActionModel::Exit(OutcomeModel::Success)),
            )
        }),
{
    let plan = clone_plan(repositories, selection, path);
    let state = StateModel::AwaitingDestination { repositories, selection };
    let given = EventModel::Destination { path, lookup };
    let one = seq![given];
    assert(run(state, one) == (next(state, given).0, seq![next(state, given).1])) by {
        assert(run(state, one.drop_last()) == (state, Seq::<ActionModel>::empty()));
    }
    if plan.len() > 0 {
        lemma_pending_clones_start_in_order(plan.first(), plan.drop_first());
        lemma_run_in_two_parts(state, one, launched(plan.len()));
    }
}

/// A selection of K positions that all lie in the listing starts exactly K
/// clones: after the destination has been given, the run hands out K commands
/// and then ends in success. The k-th command runs `git clone` on the clone
/// URL of the repository at the k-th selected position, in the destination
/// directory. With nothing selected no command is handed out, and the run
/// still ends in success.
pub proof fn lemma_selection_of_k_starts_k_clones(
    repositories: Seq<RepositoryModel>,
    selection: Seq<usize>,
    path: Seq<char>,
    lookup: Option<PathMetadata>,
)
    requires
        is_directory(lookup),
        forall|k: int| 0 <= k < selection.len() ==> selection[k] < repositories.len(),
    ensures
        ({
            let (end, actions) = run(
                StateModel::AwaitingDestination { repositories, selection },
                seq![EventModel::Destination { path, lookup }] + launched(selection.len()),
            );
            &&& end == StateModel::Finished(OutcomeModel::Success)
            &&& actions.len() == selection.len() + 1
            &&& actions.last() == ActionModel::Exit(OutcomeModel::Success)
            &&& forall|k: int|
                0 <= k < selection.len() ==> #[trigger] actions[k] == ActionModel::Launch(
                    clone_command(repositories[selection[k] as int].clone_url, path),
                )
        }),
{
    lemma_one_command_per_selected(repositories, selection, path);
    lemma_plan_is_carried_out(repositories, selection, path, lookup);
}

fn conclude_with(outcome: Outcome) -> (step: (State, Action))
    ensures
        (step.0@, step.1@) == conclude(outcome@),
{
    let told = outcome.clone();
    (State::Finished(outcome), Action::Exit(told))
}

fn launch_first(commands: Vec<CloneCommand>) -> (step: (State, Action))
    ensures
        (step.0@, step.1@) == launch_next(commands.deep_view()),
{
    let mut commands = commands;
    if commands.len() == 0 {
        conclude_with(Outcome::Success)
    } else {
        let ghost all = commands.deep_view();
        let current = commands.remove(0);
        let handed = current.clone();
        assert(commands.deep_view() =~= all.drop_first());
        (State::Cloning { current, pending: commands }, Action::Launch(handed))
    }
}

impl State {
    /// The stage in which the run stands or, once it is over, ended.
    pub fn stage(&self) -> (stage: Stage)
        ensures
            stage == stage_in(self@),
    {
        match self {
            State::AwaitingAccountName => Stage::Prompting,
            State::Fetching => Stage::Fetching,
            State::Selecting { .. } => Stage::Prompting,
            State::AwaitingDestination { .. } => Stage::Prompting,
            State::Cloning { .. } => Stage::Cloning,
            State::Finished(Outcome::Success) => Stage::Cloning,
            State::Finished(Outcome::Failed(failure)) => failure.stage(),
        }
    }
}

/// Begins a run.
pub fn start() -> (first: (State, Action))
    ensures
        (first.0@, first.1@) == initial(),
{
    (State::AwaitingAccountName, Action::AskAccountName(username(false)))
}

/// Takes a run one step on: from where it stands and what was reported to
/// where it stands next and what is to be done.
pub fn step(state: State, event: Event) -> (step: (State, Action))
    ensures
        (step.0@, step.1@) == next(state@, event@),
{
    if let State::Finished(outcome) = state {
        return conclude_with(outcome);
    }
    if let Event::Interrupted = event {
        return conclude_with(Outcome::Failed(Failure::Interrupted(state.stage())));
    }
    match (state, event) {
        (State::AwaitingAccountName, Event::AccountName(text)) => {
            if is_valid_username(text.as_str()) {
                (State::Fetching, Action::Fetch(request(text.as_str())))
            } else {
                (State::AwaitingAccountName, Action::AskAccountName(username(true)))
            }
        },
        (State::Fetching, Event::Reply(reply)) => match interpret(reply) {
            Ok(descriptors) => {
                let index = RepositoryIndex::new(descriptors);
                let checklist = repos_to_clone(index.names());
                (State::Selecting { index }, Action::AskSelection(checklist))
            },
            Err(error) => conclude_with(Outcome::Failed(Failure::Fetch(error))),
        },
        (State::Selecting { index }, Event::Selection(selection)) => (
            State::AwaitingDestination { index, selection },
            Action::AskDestination(destination_dir(false)),
        ),
        (State::AwaitingDestination { index, selection }, Event::Destination { path, lookup }) => {
            if is_valid_directory(lookup) {
                launch_first(clone_selected(&index, &selection, path.as_str()))
            } else {
                (
                    State::AwaitingDestination { index, selection },
                    Action::AskDestination(destination_dir(true)),
                )
            }
        },
        (State::Cloning { current, pending }, Event::Launched) => launch_first(pending),
        (State::Cloning { current, pending }, Event::LaunchFailed) => conclude_with(
            Outcome::Failed(Failure::Launch(current)),
        ),
        (state, _) => conclude_with(Outcome::Failed(Failure::OutOfTurn(state.stage()))),
    }
}

} // verus!
