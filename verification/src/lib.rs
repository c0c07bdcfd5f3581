//! Interactive cloning of an account's repositories: the rules that decide
//! what is asked, what is fetched and what is cloned, with their proofs.

pub mod exitcode;
pub mod git;
pub mod github;
pub mod prompt;
pub mod report;
pub mod repository;
pub mod validation;
pub mod workflow;
