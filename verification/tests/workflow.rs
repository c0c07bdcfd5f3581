use git_clone_cli::git::clone;
use git_clone_cli::github::{request, FetchError, Reply};
use git_clone_cli::prompt::{destination_dir, repos_to_clone, username};
use git_clone_cli::report::{Failure, Outcome, Stage};
use git_clone_cli::repository::{RepositoryDescriptor, RepositoryIndex};
use git_clone_cli::validation::PathMetadata;
use git_clone_cli::workflow::{start, step, Action, Event, State};

const URL1: &str = "https://example.org/octocat/hello-world.git";
const URL2: &str = "https://example.org/octocat/Spoon-Knife.git";
const URL3: &str = "https://example.org/octocat/git-consortium.git";

fn listing() -> Vec<RepositoryDescriptor> {
    vec![
        RepositoryDescriptor::new("hello-world", URL1),
        RepositoryDescriptor::new("Spoon-Knife", URL2),
        RepositoryDescriptor::new("git-consortium", URL3),
    ]
}

fn listed(repositories: Vec<RepositoryDescriptor>) -> Event {
    Event::Reply(Reply::Answered { status: 200, repositories: Some(repositories) })
}

fn directory(path: &str) -> Event {
    Event::Destination { path: path.to_string(), lookup: Some(PathMetadata { is_dir: true }) }
}

fn selecting() -> State {
    State::Selecting { index: RepositoryIndex::new(listing()) }
}

fn awaiting_destination(selection: Vec<usize>) -> State {
    State::AwaitingDestination { index: RepositoryIndex::new(listing()), selection }
}

/// Tells a run the events one after the other and collects the actions.
fn run(state: State, events: Vec<Event>) -> (State, Vec<Action>) {
    let mut state = state;
    let mut actions = Vec::new();
    for event in events {
        let (next, action) = step(state, event);
        state = next;
        actions.push(action);
    }
    (state, actions)
}

fn every_state() -> Vec<State> {
    vec![
        State::AwaitingAccountName,
        State::Fetching,
        selecting(),
        awaiting_destination(vec![0]),
        State::Cloning { current: clone(URL1, "."), pending: vec![clone(URL2, ".")] },
        State::Finished(Outcome::Success),
        State::Finished(Outcome::Failed(Failure::Fetch(FetchError::Transport))),
    ]
}

fn every_event() -> Vec<Event> {
    vec![
        Event::AccountName("octocat".to_string()),
        listed(listing()),
        Event::Selection(vec![1]),
        directory("."),
        Event::Launched,
        Event::LaunchFailed,
        Event::Interrupted,
    ]
}

#[test]
fn a_run_begins_by_asking_for_the_account_name() {
    let (state, action) = start();
    assert_eq!(state, State::AwaitingAccountName);
    assert_eq!(action, Action::AskAccountName(username(false)));
}

#[test]
fn end_to_end_one_of_two_repositories() {
    let (state, action) = start();
    assert_eq!(action, Action::AskAccountName(username(false)));

    let (state, action) = step(state, Event::AccountName("octocat".to_string()));
    assert_eq!(state, State::Fetching);
    assert_eq!(action, Action::Fetch(request("octocat")));
    match &action {
        Action::Fetch(sent) => {
            assert_eq!(sent.url, "https://api.github.com/users/octocat/repos");
            assert_eq!(sent.user_agent, "octocat");
        }
        other => panic!("{other:?}"),
    }

    let two = vec![
        RepositoryDescriptor::new("hello-world", URL1),
        RepositoryDescriptor::new("Spoon-Knife", URL2),
    ];
    let (state, action) = step(state, listed(two.clone()));
    assert_eq!(state, State::Selecting { index: RepositoryIndex::new(two) });
    match &action {
        Action::AskSelection(checklist) => {
            assert_eq!(checklist.items, vec!["hello-world", "Spoon-Knife"]);
        }
        other => panic!("{other:?}"),
    }

    let (state, action) = step(state, Event::Selection(vec![1]));
    assert_eq!(action, Action::AskDestination(destination_dir(false)));

    let (state, action) = step(state, directory("."));
    match &action {
        Action::Launch(command) => {
            assert_eq!(command.program, "git");
            assert_eq!(command.args, vec!["clone", URL2]);
            assert_eq!(command.working_dir, ".");
        }
        other => panic!("{other:?}"),
    }
    assert_eq!(state, State::Cloning { current: clone(URL2, "."), pending: vec![] });

    let (state, action) = step(state, Event::Launched);
    assert_eq!(action, Action::Exit(Outcome::Success));
    assert_eq!(state, State::Finished(Outcome::Success));
    match action {
        Action::Exit(outcome) => assert_eq!(outcome.exit_code(), 0),
        other => panic!("{other:?}"),
    }
}

#[test]
fn nothing_selected_clones_nothing_and_succeeds() {
    let (state, action) = step(selecting(), Event::Selection(vec![]));
    assert_eq!(state, awaiting_destination(vec![]));
    assert_eq!(action, Action::AskDestination(destination_dir(false)));

    let (state, action) = step(state, directory("."));
    assert_eq!(state, State::Finished(Outcome::Success));
    assert_eq!(action, Action::Exit(Outcome::Success));
    assert_eq!(Outcome::Success.exit_code(), 0);
}

#[test]
fn nothing_selected_from_the_start_launches_nothing() {
    let (state, first) = start();
    let (end, actions) = run(
        state,
        vec![
            Event::AccountName("octocat".to_string()),
            listed(listing()),
            Event::Selection(vec![]),
            directory("."),
        ],
    );
    assert_eq!(first, Action::AskAccountName(username(false)));
    assert_eq!(end, State::Finished(Outcome::Success));
    assert_eq!(actions.len(), 4);
    assert!(actions.iter().all(|action| !matches!(action, Action::Launch(_))));
    assert_eq!(actions[3], Action::Exit(Outcome::Success));
}

#[test]
fn a_selection_of_k_starts_k_clones() {
    let cases: Vec<(Vec<usize>, Vec<&str>)> = vec![
        (vec![], vec![]),
        (vec![1], vec![URL2]),
        (vec![0, 2], vec![URL1, URL3]),
        (vec![2, 0, 1], vec![URL3, URL1, URL2]),
    ];
    for (selection, urls) in cases {
        let k = selection.len();
        let mut events = vec![directory("/tmp/work")];
        for _ in 0..k {
            events.push(Event::Launched);
        }
        let (end, actions) = run(awaiting_destination(selection), events);
        assert_eq!(end, State::Finished(Outcome::Success));
        assert_eq!(actions.len(), k + 1);
        for (j, url) in urls.iter().enumerate() {
            assert_eq!(actions[j], Action::Launch(clone(url, "/tmp/work")));
        }
        assert_eq!(actions[k], Action::Exit(Outcome::Success));
    }
}

#[test]
fn selected_positions_past_the_end_start_no_clone() {
    let (end, actions) =
        run(awaiting_destination(vec![5, 1, 3]), vec![directory("."), Event::Launched]);
    assert_eq!(actions, vec![Action::Launch(clone(URL2, ".")), Action::Exit(Outcome::Success)]);
    assert_eq!(end, State::Finished(Outcome::Success));

    let (end, actions) = run(awaiting_destination(vec![3]), vec![directory(".")]);
    assert_eq!(actions, vec![Action::Exit(Outcome::Success)]);
    assert_eq!(end, State::Finished(Outcome::Success));
}

#[test]
fn what_is_no_account_name_is_asked_for_again() {
    for text in ["", " invalid_.-/¤", "octo cat", "octocat\n"] {
        let (state, action) =
            step(State::AwaitingAccountName, Event::AccountName(text.to_string()));
        assert_eq!(state, State::AwaitingAccountName);
        assert_eq!(action, Action::AskAccountName(username(true)));
    }
    let (state, actions) = run(
        State::AwaitingAccountName,
        vec![
            Event::AccountName("no good".to_string()),
            Event::AccountName("".to_string()),
            Event::AccountName("0valid_.-".to_string()),
        ],
    );
    assert_eq!(state, State::Fetching);
    assert_eq!(
        actions,
        vec![
            Action::AskAccountName(username(true)),
            Action::AskAccountName(username(true)),
            Action::Fetch(request("0valid_.-")),
        ]
    );
}

#[test]
fn the_listing_is_shown_in_the_order_of_the_reply() {
    let (state, action) = step(State::Fetching, listed(listing()));
    assert_eq!(state, selecting());
    let names: Vec<String> = listing().into_iter().map(|d| d.name).collect();
    assert_eq!(action, Action::AskSelection(repos_to_clone(&names)));
}

#[test]
fn an_empty_listing_is_still_shown() {
    let (state, action) = step(State::Fetching, listed(vec![]));
    assert_eq!(state, State::Selecting { index: RepositoryIndex::new(vec![]) });
    assert_eq!(action, Action::AskSelection(repos_to_clone(&vec![])));
}

#[test]
fn every_failure_of_the_fetch_ends_the_run() {
    let cases = vec![
        (Reply::Unreachable, FetchError::Transport),
        (Reply::Answered { status: 400, repositories: None }, FetchError::BadRequest),
        (Reply::Answered { status: 404, repositories: None }, FetchError::AccountNotFound),
        (Reply::Answered { status: 500, repositories: None }, FetchError::UnexpectedStatus(500)),
        (Reply::Answered { status: 200, repositories: None }, FetchError::MalformedResponse),
        (
            Reply::Answered { status: 403, repositories: Some(listing()) },
            FetchError::UnexpectedStatus(403),
        ),
    ];
    for (reply, error) in cases {
        let (state, action) = step(State::Fetching, Event::Reply(reply));
        assert_eq!(state, State::Finished(Outcome::Failed(Failure::Fetch(error))));
        assert_eq!(action, Action::Exit(Outcome::Failed(Failure::Fetch(error))));
        match action {
            Action::Exit(outcome) => assert_ne!(outcome.exit_code(), 0),
            other => panic!("{other:?}"),
        }
    }
}

#[test]
fn what_is_no_directory_is_asked_for_again() {
    for lookup in [None, Some(PathMetadata { is_dir: false })] {
        let given = Event::Destination { path: "nowhere".to_string(), lookup };
        let (state, action) = step(awaiting_destination(vec![0, 1]), given);
        assert_eq!(state, awaiting_destination(vec![0, 1]));
        assert_eq!(action, Action::AskDestination(destination_dir(true)));
    }
    let (state, actions) = run(
        awaiting_destination(vec![1]),
        vec![
            Event::Destination { path: "nowhere".to_string(), lookup: None },
            directory("somewhere"),
        ],
    );
    assert_eq!(
        actions,
        vec![
            Action::AskDestination(destination_dir(true)),
            Action::Launch(clone(URL2, "somewhere")),
        ]
    );
    assert_eq!(state, State::Cloning { current: clone(URL2, "somewhere"), pending: vec![] });
}

#[test]
fn clones_are_started_one_after_the_other() {
    let (state, action) = step(awaiting_destination(vec![2, 0, 1]), directory("d"));
    assert_eq!(action, Action::Launch(clone(URL3, "d")));
    assert_eq!(
        state,
        State::Cloning {
            current: clone(URL3, "d"),
            pending: vec![clone(URL1, "d"), clone(URL2, "d")],
        }
    );
    let (state, action) = step(state, Event::Launched);
    assert_eq!(action, Action::Launch(clone(URL1, "d")));
    assert_eq!(
        state,
        State::Cloning { current: clone(URL1, "d"), pending: vec![clone(URL2, "d")] }
    );
    let (state, action) = step(state, Event::Launched);
    assert_eq!(action, Action::Launch(clone(URL2, "d")));
    assert_eq!(state, State::Cloning { current: clone(URL2, "d"), pending: vec![] });
    let (state, action) = step(state, Event::Launched);
    assert_eq!(action, Action::Exit(Outcome::Success));
    assert_eq!(state, State::Finished(Outcome::Success));
}

#[test]
fn a_clone_that_cannot_be_started_ends_the_run() {
    let (end, actions) = run(
        awaiting_destination(vec![0, 1, 2]),
        vec![directory("d"), Event::Launched, Event::LaunchFailed],
    );
    let failed = || Outcome::Failed(Failure::Launch(clone(URL2, "d")));
    assert_eq!(
        actions,
        vec![
            Action::Launch(clone(URL1, "d")),
            Action::Launch(clone(URL2, "d")),
            Action::Exit(failed()),
        ]
    );
    assert_eq!(end, State::Finished(failed()));
    assert_ne!(failed().exit_code(), 0);
    match failed() {
        Outcome::Failed(failure) => assert_eq!(
            failure.report(),
            format!("cloning failed: could not start `git clone {URL2}` in d")
        ),
        Outcome::Success => unreachable!(),
    }
}

#[test]
fn an_interruption_ends_the_run_wherever_it_stands() {
    let stages = [
        Stage::Prompting,
        Stage::Fetching,
        Stage::Prompting,
        Stage::Prompting,
        Stage::Cloning,
    ];
    for (state, stage) in every_state().into_iter().zip(stages) {
        assert_eq!(state.stage(), stage);
        let (state, action) = step(state, Event::Interrupted);
        assert_eq!(state, State::Finished(Outcome::Failed(Failure::Interrupted(stage))));
        assert_eq!(action, Action::Exit(Outcome::Failed(Failure::Interrupted(stage))));
    }
}

#[test]
fn an_interruption_before_cloning_starts_no_clone() {
    let (state, _) = start();
    let (end, actions) = run(
        state,
        vec![
            Event::AccountName("octocat".to_string()),
            listed(listing()),
            Event::Selection(vec![0, 1]),
            Event::Interrupted,
            directory("."),
            Event::Launched,
        ],
    );
    let broken = || Outcome::Failed(Failure::Interrupted(Stage::Prompting));
    assert_eq!(end, State::Finished(broken()));
    assert!(actions.iter().all(|action| !matches!(action, Action::Launch(_))));
    assert_eq!(actions[3], Action::Exit(broken()));
    assert_eq!(actions[4], Action::Exit(broken()));
    assert_eq!(actions[5], Action::Exit(broken()));
}

#[test]
fn a_finished_run_stays_finished() {
    for outcome in [
        || Outcome::Success,
        || Outcome::Failed(Failure::Fetch(FetchError::AccountNotFound)),
        || Outcome::Failed(Failure::Launch(clone(URL1, "."))),
    ] {
        for event in every_event() {
            let (state, action) = step(State::Finished(outcome()), event);
            assert_eq!(state, State::Finished(outcome()));
            assert_eq!(action, Action::Exit(outcome()));
        }
    }
}

#[test]
fn an_event_out_of_turn_ends_the_run() {
    // For each state that is not finished, the one event it waits for, by its
    // place in `every_event`; LaunchFailed is also in turn while cloning.
    let awaited = [0usize, 1, 2, 3, 4];
    for (s, awaits) in awaited.into_iter().enumerate() {
        for (e, event) in every_event().into_iter().enumerate() {
            let state = every_state().swap_remove(s);
            let stage = state.stage();
            let in_turn = e == awaits || (s == 4 && e == 5) || e == 6;
            let (state, action) = step(state, event);
            let out_of_turn = Outcome::Failed(Failure::OutOfTurn(stage));
            if in_turn {
                assert_ne!(state, State::Finished(out_of_turn));
            } else {
                assert_eq!(action, Action::Exit(Outcome::Failed(Failure::OutOfTurn(stage))));
                assert_eq!(state, State::Finished(out_of_turn));
            }
        }
    }
}

#[test]
fn a_command_is_handed_out_only_when_due() {
    for s in 0..every_state().len() {
        for (e, event) in every_event().into_iter().enumerate() {
            let state = every_state().swap_remove(s);
            let (next, action) = step(state, event);
            if let Action::Launch(command) = action {
                assert!((s == 3 && e == 3) || (s == 4 && e == 4), "state {s}, event {e}");
                match next {
                    State::Cloning { current, .. } => assert_eq!(current, command),
                    other => panic!("{other:?}"),
                }
            }
        }
    }
}

fn progress(state: &State) -> usize {
    match state {
        State::AwaitingAccountName => 0,
        State::Fetching => 1,
        State::Selecting { .. } => 2,
        State::AwaitingDestination { .. } => 3,
        State::Cloning { .. } => 4,
        State::Finished(_) => 5,
    }
}

#[test]
fn a_step_never_goes_back() {
    for s in 0..every_state().len() {
        for event in every_event() {
            let state = every_state().swap_remove(s);
            let before = progress(&state);
            let (next, _) = step(state, event);
            let after = progress(&next);
            assert!(before <= after);
            assert!(after == 5 || after <= before + 1);
        }
    }
}

#[test]
fn a_run_sends_one_request_at_most() {
    let (state, _) = start();
    let (end, actions) = run(
        state,
        vec![
            Event::AccountName("no good".to_string()),
            Event::AccountName("octocat".to_string()),
            Event::Reply(Reply::Answered { status: 500, repositories: None }),
            Event::AccountName("octocat".to_string()),
            Event::Reply(Reply::Answered { status: 200, repositories: Some(listing()) }),
        ],
    );
    let sent = actions.iter().filter(|action| matches!(action, Action::Fetch(_))).count();
    assert_eq!(sent, 1);
    assert_eq!(actions[1], Action::Fetch(request("octocat")));
    let failed = || Outcome::Failed(Failure::Fetch(FetchError::UnexpectedStatus(500)));
    assert_eq!(actions[2], Action::Exit(failed()));
    assert_eq!(end, State::Finished(failed()));

    let (state, _) = start();
    let (end, actions) = run(
        state,
        vec![Event::AccountName("".to_string()), Event::AccountName("a b".to_string())],
    );
    assert_eq!(end, State::AwaitingAccountName);
    assert!(actions.iter().all(|action| !matches!(action, Action::Fetch(_))));
}

#[test]
fn a_finished_run_is_in_the_stage_in_which_it_ended() {
    assert_eq!(State::Finished(Outcome::Success).stage(), Stage::Cloning);
    let cases = [
        (Failure::Interrupted(Stage::Prompting), Stage::Prompting),
        (Failure::Interrupted(Stage::Fetching), Stage::Fetching),
        (Failure::OutOfTurn(Stage::Cloning), Stage::Cloning),
        (Failure::Fetch(FetchError::Transport), Stage::Fetching),
        (Failure::Launch(clone(URL1, ".")), Stage::Cloning),
    ];
    for (failure, stage) in cases {
        assert_eq!(State::Finished(Outcome::Failed(failure)).stage(), stage);
    }
}

#[test]
fn a_run_that_did_not_come_to_cloning_started_no_clone() {
    let endings: Vec<Vec<Event>> = vec![
        vec![Event::Interrupted],
        vec![Event::AccountName("octocat".to_string()), Event::Interrupted],
        vec![Event::AccountName("octocat".to_string()), Event::Reply(Reply::Unreachable)],
        vec![Event::AccountName("octocat".to_string()), listed(listing()), Event::Launched],
        vec![
            Event::AccountName("octocat".to_string()),
            listed(listing()),
            Event::Selection(vec![0, 1, 2]),
            Event::Destination { path: "nowhere".to_string(), lookup: None },
            Event::Interrupted,
        ],
    ];
    for events in endings {
        let (state, _) = start();
        let (end, actions) = run(state, events);
        assert_ne!(end.stage(), Stage::Cloning);
        assert!(actions.iter().all(|action| !matches!(action, Action::Launch(_))));
    }
}
