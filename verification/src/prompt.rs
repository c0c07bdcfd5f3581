//! The three questions that the user is asked, and the answers that are
//! accepted.

use crate::validation::{
    is_account_name, is_directory, is_valid_directory, is_valid_username, PathMetadata,
};
use vstd::prelude::*;

verus! {

/// A question that is answered with a line of text.
#[derive(Debug, PartialEq, Eq)]
pub struct TextPrompt {
    /// What the user is asked for.
    pub label: String,
    /// The answer that is filled in beforehand, if any.
    pub default: Option<String>,
    /// What was wrong with the previous answer, if one was refused.
    pub complaint: Option<String>,
}

/// The mathematical value of a [`TextPrompt`].
pub struct TextPromptModel {
    pub label: Seq<char>,
    pub default: Option<Seq<char>>,
    pub complaint: Option<Seq<char>>,
}

/// The characters of a string that may be absent.
pub open spec fn text_of(text: Option<String>) -> Option<Seq<char>> {
    match text {
        Some(s) => Some(s@),
        None => None,
    }
}

impl View for TextPrompt {
    type V = TextPromptModel;

    open spec fn view(&self) -> TextPromptModel {
        TextPromptModel {
            label: self.label@,
            default: text_of(self.default),
            complaint: text_of(self.complaint),
        }
    }
}

/// A list of items of which the user ticks any number, none included.
#[derive(Debug, PartialEq, Eq)]
pub struct Checklist {
    /// What the user is asked for.
    pub label: String,
    /// The items, in the order in which they are shown and numbered from 0.
    pub items: Vec<String>,
}

/// The mathematical value of a [`Checklist`].
pub struct ChecklistModel {
    pub label: Seq<char>,
    pub items: Seq<Seq<char>>,
}

impl View for Checklist {
    type V = ChecklistModel;

    open spec fn view(&self) -> ChecklistModel {
        ChecklistModel { label: self.label@, items: self.items.deep_view() }
    }
}

/// The question for the account name, as asked first (`refused` is false) or
/// again after an answer that was not accepted.
pub open spec fn username_prompt(refused: bool) -> TextPromptModel {
    TextPromptModel {
        label: "GitHub username"@,
        default: None,
        complaint: if refused {
            Some("Invalid username."@)
        } else {
            None
        },
    }
}

/// The question for the destination directory, with the current directory
/// filled in.
pub open spec fn destination_dir_prompt(refused: bool) -> TextPromptModel {
    TextPromptModel {
        label: "Directory to clone to"@,
        default: Some("."@),
        complaint: if refused {
            Some("Invalid path."@)
        } else {
            None
        },
    }
}

/// The checklist of repositories.
pub open spec fn repos_to_clone_prompt(repo_names: Seq<Seq<char>>) -> ChecklistModel {
    ChecklistModel { label: "Pick repos to clone"@, items: repo_names }
}

/// Makes the question for the account name.
pub fn username(refused: bool) -> (prompt: TextPrompt)
    ensures
        prompt@ == username_prompt(refused),
{
    TextPrompt {
        label: "GitHub username".to_owned(),
        default: None,
        complaint: if refused {
            Some("Invalid username.".to_owned())
        } else {
            None
        },
    }
}

/// Makes the question for the destination directory.
pub fn destination_dir(refused: bool) -> (prompt: TextPrompt)
    ensures
        prompt@ == destination_dir_prompt(refused),
{
    TextPrompt {
        label: "Directory to clone to".to_owned(),
        default: Some(".".to_owned()),
        complaint: if refused {
            Some("Invalid path.".to_owned())
        } else {
            None
        },
    }
}

/// Makes the checklist that shows `repo_names` in their order.
pub fn repos_to_clone(repo_names: &Vec<String>) -> (prompt: Checklist)
    ensures
        prompt@ == repos_to_clone_prompt(repo_names.deep_view()),
{
    let mut items: Vec<String> = Vec::new();
    let mut i: usize = 0;
    while i < repo_names.len()
        invariant
            i <= repo_names.len(),
            items.len() == i,
            forall|k: int| 0 <= k < i ==> (#[trigger] items[k])@ == repo_names[k]@,
        decreases repo_names.len() - i,
    {
        items.push(repo_names[i].clone());
        i += 1;
    }
    assert(items.deep_view() =~= repo_names.deep_view());
    Checklist { label: "Pick repos to clone".to_owned(), items }
}

/// Accepts an answer to the question for the account name exactly when it is
/// an account name, and otherwise says what to tell the user.
pub fn check_username(input: &str) -> (verdict: Result<(), &'static str>)
    ensures
        verdict is Ok <==> is_account_name(input@),
        verdict matches Err(complaint) ==> complaint@ == "Invalid username."@,
{
    if is_valid_username(input) {
        Ok(())
    } else {
        Err("Invalid username.")
    }
}

/// Accepts an answer to the question for the destination exactly when a look
/// at the path found a directory, and otherwise says what to tell the user.
pub fn check_destination_dir(lookup: Option<PathMetadata>) -> (verdict: Result<(), &'static str>)
    ensures
        verdict is Ok <==> is_directory(lookup),
        verdict matches Err(complaint) ==> complaint@ == "Invalid path."@,
{
    if is_valid_directory(lookup) {
        Ok(())
    } else {
        Err("Invalid path.")
    }
}

} // verus!
