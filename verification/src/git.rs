//! The commands that clone the chosen repositories.

use crate::repository::{RepositoryIndex, RepositoryModel};
use vstd::prelude::*;

verus! {

/// One run of the version-control client: the program, its arguments and the
/// directory in which it is to be started.
#[derive(Debug, PartialEq, Eq)]
pub struct CloneCommand {
    pub program: String,
    pub args: Vec<String>,
    pub working_dir: String,
}

/// The mathematical value of a [`CloneCommand`].
pub struct CommandModel {
    pub program: Seq<char>,
    pub args: Seq<Seq<char>>,
    pub working_dir: Seq<char>,
}

impl View for CloneCommand {
    type V = CommandModel;

    open spec fn view(&self) -> CommandModel {
        CommandModel {
            program: self.program@,
            args: self.args.deep_view(),
            working_dir: self.working_dir@,
        }
    }
}

impl DeepView for CloneCommand {
    type V = CommandModel;

    open spec fn deep_view(&self) -> CommandModel {
        self@
    }
}

impl Clone for CloneCommand {
    fn clone(&self) -> (copy: CloneCommand)
        ensures
            copy@ == self@,
    {
        let mut args: Vec<String> = Vec::new();
        let mut i: usize = 0;
        while i < self.args.len()
            invariant
                i <= self.args.len(),
                args.len() == i,
                forall|k: int| 0 <= k < i ==> (#[trigger] args[k])@ == self.args[k]@,
            decreases self.args.len() - i,
        {
            args.push(self.args[i].clone());
            i += 1;
        }
        assert(args.deep_view() =~= self.args.deep_view());
        CloneCommand { program: self.program.clone(), args, working_dir: self.working_dir.clone() }
    }
}

/// The command that clones `clone_url` when started in `destination_dir`:
/// `git clone <clone_url>`.
pub open spec fn clone_command(clone_url: Seq<char>, destination_dir: Seq<char>) -> CommandModel {
    CommandModel {
        program: "git"@,
        args: seq!["clone"@, clone_url],
        working_dir: destination_dir,
    }
}

/// Makes the command that clones `clone_url` into `destination_dir`.
pub fn clone(clone_url: &str, destination_dir: &str) -> (command: CloneCommand)
    ensures
        command@ == clone_command(clone_url@, destination_dir@),
{
    let mut args: Vec<String> = Vec::new();
    args.push("clone".to_owned());
    args.push(clone_url.to_owned());
    assert(args.deep_view() =~= seq!["clone"@, clone_url@]);
    CloneCommand { program: "git".to_owned(), args, working_dir: destination_dir.to_owned() }
}

/// The commands for a selection: one for each selected position that the
/// listing has, in the order of the selection. Positions past the end of the
/// listing are passed over.
pub open spec fn clone_plan(
    repositories: Seq<RepositoryModel>,
    selection: Seq<usize>,
    destination_dir: Seq<char>,
) -> Seq<CommandModel> {
    selection.filter(|position: usize| position < repositories.len()).map_values(
        |position: usize| clone_command(repositories[position as int].clone_url, destination_dir),
    )
}

/// The URL that a command made by [`clone`] clones: its last argument.
pub open spec fn cloned_url(command: CommandModel) -> Seq<char> {
    command.args.last()
}

/// Whether no two of `repositories` share a clone URL.
pub open spec fn clone_urls_unique(repositories: Seq<RepositoryModel>) -> bool {
    forall|i: int, j: int|
        0 <= i < j < repositories.len() ==> (#[trigger] repositories[i]).clone_url != (
        #[trigger] repositories[j]).clone_url
}

proof fn lemma_filter_keeps_all(s: Seq<usize>, pred: spec_fn(usize) -> bool)
    requires
        forall|k: int| 0 <= k < s.len() ==> pred(#[trigger] s[k]),
    ensures
        s.filter(pred) == s,
    decreases s.len(),
{
    reveal(Seq::filter);
    if s.len() > 0 {
        lemma_filter_keeps_all(s.drop_last(), pred);
    }
}

/// A selection of K positions that all lie in the listing gives exactly K
/// commands. The k-th of them runs `git clone` on the clone URL of the
/// repository at the k-th selected position, in the destination directory.
pub proof fn lemma_one_command_per_selected(
    repositories: Seq<RepositoryModel>,
    selection: Seq<usize>,
    destination_dir: Seq<char>,
)
    requires
        forall|k: int| 0 <= k < selection.len() ==> selection[k] < repositories.len(),
    ensures
        clone_plan(repositories, selection, destination_dir).len() == selection.len(),
        forall|k: int|
            #![trigger clone_plan(repositories, selection, destination_dir)[k]]
            0 <= k < selection.len() ==> {
                let command = clone_plan(repositories, selection, destination_dir)[k];
                &&& command == clone_command(
                    repositories[selection[k] as int].clone_url,
                    destination_dir,
                )
                &&& command.program == "git"@
                &&& command.args == seq!["clone"@, repositories[selection[k] as int].clone_url]
                &&& command.working_dir == destination_dir
            },
{
    lemma_filter_keeps_all(selection, |position: usize| position < repositories.len());
}

/// Where no position is selected twice and no two repositories share a clone
/// URL, no two commands of the plan clone the same URL.
pub proof fn lemma_commands_clone_distinct_urls(
    repositories: Seq<RepositoryModel>,
    selection: Seq<usize>,
    destination_dir: Seq<char>,
)
    requires
        forall|k: int| 0 <= k < selection.len() ==> selection[k] < repositories.len(),
        selection.no_duplicates(),
        clone_urls_unique(repositories),
    ensures
        forall|j: int, k: int|
            0 <= j < k < selection.len() ==> cloned_url(
                #[trigger] clone_plan(repositories, selection, destination_dir)[j],
            ) != cloned_url(#[trigger] clone_plan(repositories, selection, destination_dir)[k]),
{
    lemma_one_command_per_selected(repositories, selection, destination_dir);
    let plan = clone_plan(repositories, selection, destination_dir);
    assert forall|j: int, k: int| 0 <= j < k < selection.len() implies cloned_url(
        #[trigger] plan[j],
    ) != cloned_url(#[trigger] plan[k]) by {
        // Two places of the selection hold two positions, and so two repositories.
        assert(selection[j] != selection[k]);
    }
}

/// Makes the commands that clone the repositories at the selected positions
/// into `destination_dir`.
pub fn clone_selected(
    index: &RepositoryIndex,
    selection: &Vec<usize>,
    destination_dir: &str,
) -> (plan: Vec<CloneCommand>)
    ensures
        plan.deep_view() == clone_plan(index@, selection@, destination_dir@),
{
    let ghost listed = |position: usize| position < index@.len();
    let mut plan: Vec<CloneCommand> = Vec::new();
    let mut i: usize = 0;
    proof {
        reveal(Seq::filter);
    }
    while i < selection.len()
        invariant
            i <= selection.len(),
            listed == |position: usize| position < index@.len(),
            plan.deep_view() == clone_plan(index@, selection@.take(i as int), destination_dir@),
        decreases selection.len() - i,
    {
        let ghost before = plan.deep_view();
        let ghost seen = selection@.take(i as int);
        let position = selection[i];
        proof {
            assert(selection@.take(i + 1) =~= seen.push(position));
            seen.lemma_filter_push(position, listed);
        }
        match index.resolve(position) {
            Some(descriptor) => {
                let command = clone(descriptor.clone_url.as_str(), destination_dir);
                plan.push(command);
                proof {
                    assert(plan.deep_view() =~= before.push(command@));
                }
            },
            None => {},
        }
        i += 1;
    }
    proof {
        assert(selection@.take(i as int) =~= selection@);
    }
    plan
}

} // verus!
