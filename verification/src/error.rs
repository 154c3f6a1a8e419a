//! How an attempt can end.

use vstd::prelude::*;

verus! {

/// Why a step of a check-in failed.
#[derive(Clone, Copy, Debug, PartialEq, Eq, Structural)]
pub enum ErrorKind {
    /// A request timed out, could not connect, or came back with a status
    /// that is no success.
    Network,
    /// The login exchange failed, or the site still asks for a login after it.
    Auth,
    /// The page or a picture does not have the expected form.
    Parse,
    /// The lookup service knows nothing under an option's label.
    NotFound,
    /// No option's picture is close enough to the puzzle.
    NoMatch,
    /// The site did not acknowledge the submitted answer.
    Submission,
    /// A fault on this side: the session was not available, or the driver
    /// reported something that was not asked for.
    Lock,
    /// The page offers no options: the check-in is already done, or needs
    /// another procedure.
    AlreadyCompleted,
}

/// How one attempt ended.
#[derive(Clone, Copy, Debug, PartialEq, Eq, Structural)]
pub enum AttemptOutcome {
    Success,
    Failure(ErrorKind),
}

impl AttemptOutcome {
    /// The attempt checked the account in.
    pub fn is_success(&self) -> (r: bool)
        ensures
            r == (*self == AttemptOutcome::Success),
    {
        match self {
            AttemptOutcome::Success => true,
            AttemptOutcome::Failure(_) => false,
        }
    }
}

impl ErrorKind {
    /// A short name of the kind, for logs and notices.
    pub fn name(&self) -> (r: &'static str)
        ensures
            r@ == match *self {
                ErrorKind::Network => "NetworkError"@,
                ErrorKind::Auth => "AuthError"@,
                ErrorKind::Parse => "ParseError"@,
                ErrorKind::NotFound => "NotFoundError"@,
                ErrorKind::NoMatch => "NoMatchError"@,
                ErrorKind::Submission => "SubmissionError"@,
                ErrorKind::Lock => "LockError"@,
                ErrorKind::AlreadyCompleted => "AlreadyCompleted"@,
            },
    {
        match self {
            ErrorKind::Network => "NetworkError",
            ErrorKind::Auth => "AuthError",
            ErrorKind::Parse => "ParseError",
            ErrorKind::NotFound => "NotFoundError",
            ErrorKind::NoMatch => "NoMatchError",
            ErrorKind::Submission => "SubmissionError",
            ErrorKind::Lock => "LockError",
            ErrorKind::AlreadyCompleted => "AlreadyCompleted",
        }
    }
}

} // verus!
