//! The forge's side of the conversation: the request that lists an account's
//! repositories, and the reading of what came back.

use crate::repository::{RepositoryDescriptor, RepositoryModel};
use vstd::prelude::*;
use vstd::string::StringExecFns;

verus! {

/// The status with which the forge answers a request that it served.
pub const STATUS_OK: u16 = 200;

/// The status with which the forge refuses a request that it cannot read.
pub const STATUS_BAD_REQUEST: u16 = 400;

/// The status with which the forge answers for an account that it does not know.
pub const STATUS_NOT_FOUND: u16 = 404;

/// The seconds that are waited for the forge's answer.
pub const TIMEOUT_SECS: u64 = 30;

/// The method with which a request is sent.
#[derive(Debug, Clone, Copy, PartialEq, Eq, Structural)]
pub enum Method {
    Get,
}

/// The request that lists the repositories of an account. It is sent once,
/// and only the first page of what it lists is read.
#[derive(Debug, PartialEq, Eq)]
pub struct Request {
    pub method: Method,
    pub url: String,
    /// The value of the `Accept` header.
    pub accept: String,
    /// The value of the `User-Agent` header.
    pub user_agent: String,
    /// The seconds after which the request is given up.
    pub timeout_secs: u64,
}

/// The mathematical value of a [`Request`].
pub struct RequestModel {
    pub method: Method,
    pub url: Seq<char>,
    pub accept: Seq<char>,
    pub user_agent: Seq<char>,
    pub timeout_secs: u64,
}

impl View for Request {
    type V = RequestModel;

    open spec fn view(&self) -> RequestModel {
        RequestModel {
            method: self.method,
            url: self.url@,
            accept: self.accept@,
            user_agent: self.user_agent@,
            timeout_secs: self.timeout_secs,
        }
    }
}

/// The request for the repositories of `account_name`: a GET in whose URL the
/// account's name stands as it is, and in which the client calls itself by
/// that name.
pub open spec fn repositories_request(account_name: Seq<char>) -> RequestModel {
    RequestModel {
        method: Method::Get,
        url: "https://api.github.com/users/"@ + account_name + "/repos"@,
        accept: "application/vnd.github+json"@,
        user_agent: account_name,
        timeout_secs: TIMEOUT_SECS,
    }
}

/// Builds the request that lists the repositories of `account_name`.
pub fn request(account_name: &str) -> (request: Request)
    ensures
        request@ == repositories_request(account_name@),
{
    let url = String::from_str("https://api.github.com/users/").concat(account_name).concat(
        "/repos",
    );
    Request {
        method: Method::Get,
        url,
        accept: String::from_str("application/vnd.github+json"),
        user_agent: String::from_str(account_name),
        timeout_secs: TIMEOUT_SECS,
    }
}

/// Why the repositories of an account could not be had.
#[derive(Debug, Clone, Copy, PartialEq, Eq, Structural)]
pub enum FetchError {
    /// The forge answered with status 400.
    BadRequest,
    /// The forge answered with status 404.
    AccountNotFound,
    /// The forge answered with a status other than 200, 400 and 404.
    UnexpectedStatus(u16),
    /// No answer arrived: the request failed below HTTP.
    Transport,
    /// The forge answered with status 200 and a body that is not a list of
    /// repositories.
    MalformedResponse,
}

/// What came back for a [`Request`].
#[derive(Debug, PartialEq, Eq)]
pub enum Reply {
    /// No answer arrived: name resolution, the connection or the transfer failed.
    Unreachable,
    /// An answer arrived with this status. `repositories` is its body decoded
    /// as a list of objects with the string fields `name` and `clone_url`, in
    /// the body's order; none where the body is no such list.
    Answered { status: u16, repositories: Option<Vec<RepositoryDescriptor>> },
}

/// The mathematical value of a [`Reply`].
pub enum ReplyModel {
    Unreachable,
    Answered { status: u16, repositories: Option<Seq<RepositoryModel>> },
}

impl View for Reply {
    type V = ReplyModel;

    open spec fn view(&self) -> ReplyModel {
        match self {
            Reply::Unreachable => ReplyModel::Unreachable,
            Reply::Answered { status, repositories } => ReplyModel::Answered {
                status: *status,
                repositories: match repositories {
                    Some(list) => Some(list.deep_view()),
                    None => None,
                },
            },
        }
    }
}

/// What a reply means: the listed repositories in the body's order for status
/// 200 with a body that decoded, and otherwise the error that says why not.
pub open spec fn reading(reply: ReplyModel) -> Result<Seq<RepositoryModel>, FetchError> {
    match reply {
        ReplyModel::Unreachable => Err(FetchError::Transport),
        ReplyModel::Answered { status, repositories } => if status == STATUS_OK {
            match repositories {
                Some(list) => Ok(list),
                None => Err(FetchError::MalformedResponse),
            }
        } else if status == STATUS_BAD_REQUEST {
            Err(FetchError::BadRequest)
        } else if status == STATUS_NOT_FOUND {
            Err(FetchError::AccountNotFound)
        } else {
            Err(FetchError::UnexpectedStatus(status))
        },
    }
}

/// The mathematical value of what [`interpret`] returns.
pub open spec fn listing(outcome: Result<Vec<RepositoryDescriptor>, FetchError>) -> Result<
    Seq<RepositoryModel>,
    FetchError,
> {
    match outcome {
        Ok(list) => Ok(list.deep_view()),
        Err(error) => Err(error),
    }
}

/// Reads a reply: the repositories that it lists, or why there are none.
pub fn interpret(reply: Reply) -> (outcome: Result<Vec<RepositoryDescriptor>, FetchError>)
    ensures
        listing(outcome) == reading(reply@),
{
    match reply {
        Reply::Unreachable => Err(FetchError::Transport),
        Reply::Answered { status, repositories } => {
            if status == STATUS_OK {
                match repositories {
                    Some(list) => Ok(list),
                    None => Err(FetchError::MalformedResponse),
                }
            } else if status == STATUS_BAD_REQUEST {
                Err(FetchError::BadRequest)
            } else if status == STATUS_NOT_FOUND {
                Err(FetchError::AccountNotFound)
            } else {
                Err(FetchError::UnexpectedStatus(status))
            }
        },
    }
}

} // verus!
