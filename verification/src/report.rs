//! How a run ends, and what the user is told when it fails.

use crate::exitcode;
use crate::git::{CloneCommand, CommandModel};
use crate::github::FetchError;
use vstd::prelude::*;
use vstd::string::StringExecFns;

verus! {

/// The part of a run in which something can go wrong.
#[derive(Debug, Clone, Copy, PartialEq, Eq, Structural)]
pub enum Stage {
    Prompting,
    Fetching,
    Cloning,
}

/// Why a run was given up.
#[derive(Debug, PartialEq, Eq)]
pub enum Failure {
    /// The user broke off, or the input ended.
    Interrupted(Stage),
    /// Something was reported that the run was not waiting for.
    OutOfTurn(Stage),
    /// The repositories could not be had.
    Fetch(FetchError),
    /// The version-control client could not be started for this command.
    Launch(CloneCommand),
}

/// The mathematical value of a [`Failure`].
pub enum FailureModel {
    Interrupted(Stage),
    OutOfTurn(Stage),
    Fetch(FetchError),
    Launch(CommandModel),
}

impl View for Failure {
    type V = FailureModel;

    open spec fn view(&self) -> FailureModel {
        match self {
            Failure::Interrupted(stage) => FailureModel::Interrupted(*stage),
            Failure::OutOfTurn(stage) => FailureModel::OutOfTurn(*stage),
            Failure::Fetch(error) => FailureModel::Fetch(*error),
            Failure::Launch(command) => FailureModel::Launch(command@),
        }
    }
}

impl Clone for Failure {
    fn clone(&self) -> (copy: Failure)
        ensures
            copy@ == self@,
    {
        match self {
            Failure::Interrupted(stage) => Failure::Interrupted(*stage),
            Failure::OutOfTurn(stage) => Failure::OutOfTurn(*stage),
            Failure::Fetch(error) => Failure::Fetch(*error),
            Failure::Launch(command) => Failure::Launch(command.clone()),
        }
    }
}

/// How a run ended.
#[derive(Debug, PartialEq, Eq)]
pub enum Outcome {
    /// Every selected repository's clone was started; also where none was selected.
    Success,
    Failed(Failure),
}

/// The mathematical value of an [`Outcome`].
pub enum OutcomeModel {
    Success,
    Failed(FailureModel),
}

impl View for Outcome {
    type V = OutcomeModel;

    open spec fn view(&self) -> OutcomeModel {
        match self {
            Outcome::Success => OutcomeModel::Success,
            Outcome::Failed(failure) => OutcomeModel::Failed(failure@),
        }
    }
}

impl Clone for Outcome {
    fn clone(&self) -> (copy: Outcome)
        ensures
            copy@ == self@,
    {
        match self {
            Outcome::Success => Outcome::Success,
            Outcome::Failed(failure) => Outcome::Failed(failure.clone()),
        }
    }
}

/// The status with which the process ends after `outcome`: zero for success
/// and only for success.
pub open spec fn status_of(outcome: OutcomeModel) -> i32 {
    match outcome {
        OutcomeModel::Success => exitcode::OK,
        OutcomeModel::Failed(_) => exitcode::FAILURE,
    }
}

impl Outcome {
    /// The status with which the process is to end.
    pub fn exit_code(&self) -> (code: i32)
        ensures
            code == status_of(self@),
            code == 0 <==> self@ is Success,
    {
        match self {
            Outcome::Success => exitcode::OK,
            Outcome::Failed(_) => exitcode::FAILURE,
        }
    }
}

/// The character for the digit `d`, which is below ten.
pub open spec fn digit(d: nat) -> char {
    (0x30 + d) as char
}

/// The decimal digits of `n`, without leading zeros.
pub open spec fn decimal(n: nat) -> Seq<char>
    decreases n,
{
    if n < 10 {
        seq![digit(n)]
    } else {
        decimal(n / 10).push(digit(n % 10))
    }
}

fn digit_text(d: u16) -> (text: &'static str)
    requires
        d < 10,
    ensures
        text@ == seq![digit(d as nat)],
{
    proof {
        reveal_strlit("0");
        reveal_strlit("1");
        reveal_strlit("2");
        reveal_strlit("3");
        reveal_strlit("4");
        reveal_strlit("5");
        reveal_strlit("6");
        reveal_strlit("7");
        reveal_strlit("8");
        reveal_strlit("9");
    }
    let text = if d == 0 {
        "0"
    } else if d == 1 {
        "1"
    } else if d == 2 {
        "2"
    } else if d == 3 {
        "3"
    } else if d == 4 {
        "4"
    } else if d == 5 {
        "5"
    } else if d == 6 {
        "6"
    } else if d == 7 {
        "7"
    } else if d == 8 {
        "8"
    } else {
        "9"
    };
    text
}

/// Writes `n` in decimal digits.
pub fn decimal_text(n: u16) -> (text: String)
    ensures
        text@ == decimal(n as nat),
    decreases n,
{
    if n < 10 {
        String::from_str(digit_text(n))
    } else {
        let text = decimal_text(n / 10).concat(digit_text(n % 10));
        text
    }
}

/// The name of a stage, as it is shown to the user.
pub open spec fn stage_name(stage: Stage) -> Seq<char> {
    match stage {
        Stage::Prompting => "prompting"@,
        Stage::Fetching => "fetching"@,
        Stage::Cloning => "cloning"@,
    }
}

/// What is said of a fetch that failed.
pub open spec fn fetch_error_text(error: FetchError) -> Seq<char> {
    match error {
        FetchError::BadRequest => "the forge refused the request (status 400)"@,
        FetchError::AccountNotFound => "the forge knows no such account (status 404)"@,
        FetchError::UnexpectedStatus(status) => "the forge answered with status "@ + decimal(
            status as nat,
        ),
        FetchError::Transport => "the forge could not be reached"@,
        FetchError::MalformedResponse => "the forge's answer is not a list of repositories"@,
    }
}

/// A command as one would type it: the program, then each argument after a
/// space.
pub open spec fn command_line(command: CommandModel) -> Seq<char> {
    command.args.fold_left(command.program, |line: Seq<char>, arg: Seq<char>| line + " "@ + arg)
}

/// The stage in which a failure arose.
pub open spec fn stage_of(failure: FailureModel) -> Stage {
    match failure {
        FailureModel::Interrupted(stage) => stage,
        FailureModel::OutOfTurn(stage) => stage,
        FailureModel::Fetch(_) => Stage::Fetching,
        FailureModel::Launch(_) => Stage::Cloning,
    }
}

/// What went wrong, without the stage.
pub open spec fn cause(failure: FailureModel) -> Seq<char> {
    match failure {
        FailureModel::Interrupted(_) => "the input was broken off"@,
        FailureModel::OutOfTurn(_) => "something was reported out of turn"@,
        FailureModel::Fetch(error) => fetch_error_text(error),
        FailureModel::Launch(command) => "could not start `"@ + command_line(command) + "` in "@
            + command.working_dir,
    }
}

/// The line that tells the user of a failure: the stage that failed, then the
/// cause, which for a clone names the repository's URL.
pub open spec fn report_text(failure: FailureModel) -> Seq<char> {
    stage_name(stage_of(failure)) + " failed: "@ + cause(failure)
}

impl Stage {
    /// The stage's name, as it is shown to the user.
    pub fn name(&self) -> (name: &'static str)
        ensures
            name@ == stage_name(*self),
    {
        match self {
            Stage::Prompting => "prompting",
            Stage::Fetching => "fetching",
            Stage::Cloning => "cloning",
        }
    }
}

impl FetchError {
    /// What is said of this error.
    pub fn message(&self) -> (text: String)
        ensures
            text@ == fetch_error_text(*self),
    {
        match self {
            FetchError::BadRequest => String::from_str(
                "the forge refused the request (status 400)",
            ),
            FetchError::AccountNotFound => String::from_str(
                "the forge knows no such account (status 404)",
            ),
            FetchError::UnexpectedStatus(status) => {
                let digits = decimal_text(*status);
                String::from_str("the forge answered with status ").concat(digits.as_str())
            },
            FetchError::Transport => String::from_str("the forge could not be reached"),
            FetchError::MalformedResponse => String::from_str(
                "the forge's answer is not a list of repositories",
            ),
        }
    }
}

impl CloneCommand {
    /// The command as one would type it.
    pub fn command_line(&self) -> (line: String)
        ensures
            line@ == command_line(self@),
    {
        let ghost join = |line: Seq<char>, arg: Seq<char>| line + " "@ + arg;
        let mut line = self.program.clone();
        let mut i: usize = 0;
        while i < self.args.len()
            invariant
                i <= self.args.len(),
                join == |line: Seq<char>, arg: Seq<char>| line + " "@ + arg,
                line@ == self.args.deep_view().take(i as int).fold_left(self.program@, join),
            decreases self.args.len() - i,
        {
            assert(self.args.deep_view().take(i + 1).drop_last() =~= self.args.deep_view().take(
                i as int,
            ));
            line = line.concat(" ").concat(self.args[i].as_str());
            i += 1;
        }
        line
    }
}

impl Failure {
    /// The stage in which the failure arose.
    pub fn stage(&self) -> (stage: Stage)
        ensures
            stage == stage_of(self@),
    {
        match self {
            Failure::Interrupted(stage) => *stage,
            Failure::OutOfTurn(stage) => *stage,
            Failure::Fetch(_) => Stage::Fetching,
            Failure::Launch(_) => Stage::Cloning,
        }
    }

    /// The line that tells the user of the failure.
    pub fn report(&self) -> (text: String)
        ensures
            text@ == report_text(self@),
    {
        let cause = match self {
            Failure::Interrupted(_) => String::from_str("the input was broken off"),
            Failure::OutOfTurn(_) => String::from_str("something was reported out of turn"),
            Failure::Fetch(error) => error.message(),
            Failure::Launch(command) => {
                let line = command.command_line();
                String::from_str("could not start `").concat(line.as_str()).concat("` in ").concat(
                    command.working_dir.as_str(),
                )
            },
        };
        String::from_str(self.stage().name()).concat(" failed: ").concat(cause.as_str())
    }
}

} // verus!
