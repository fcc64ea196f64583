//! Finding the token at startup, and the ways in which startup fails.

use crate::text::{opt_text, text_or_empty, trim, trimmed};
use vstd::prelude::*;
use vstd::string::StringExecFns;

verus! {

/// The file in the working directory that holds the token when the command
/// line does not.
pub const TOKEN_FILE: &'static str = "token.txt";

/// The exit status of a run that ended through the menu.
pub const EXIT_SUCCESS: i32 = 0;

/// The exit status of a run that could not start.
pub const EXIT_FAILURE: i32 = 1;

/// Why the tool cannot start.
#[derive(Clone, Copy, Debug, PartialEq, Eq, Structural)]
pub enum StartupError {
    /// Neither the command line nor the token file holds a token.
    MissingCredential,
    /// The service does not accept the token.
    InvalidCredential,
}

impl StartupError {
    /// The exit status that the process ends with: non-zero for every
    /// failure.
    pub fn exit_code(&self) -> (code: i32)
        ensures
            code == EXIT_FAILURE,
            code != EXIT_SUCCESS,
    {
        EXIT_FAILURE
    }
}

/// The text that the token is taken from: the command-line argument where
/// there is one, else the contents of the token file, else nothing.
pub open spec fn credential_source(
    argument: Option<Seq<char>>,
    file: Option<Seq<char>>,
) -> Seq<char> {
    match argument {
        Some(given) => given,
        None => text_or_empty(file),
    }
}

/// The outcome of startup for a token text that has been trimmed already:
/// the text itself, unless it is empty.
pub open spec fn accepted(candidate: Seq<char>) -> Result<Seq<char>, StartupError> {
    if candidate.len() == 0 {
        Err(StartupError::MissingCredential)
    } else {
        Ok(candidate)
    }
}

/// The view of an outcome of startup.
pub open spec fn outcome_view(outcome: Result<String, StartupError>) -> Result<
    Seq<char>,
    StartupError,
> {
    match outcome {
        Ok(credential) => Ok(credential@),
        Err(error) => Err(error),
    }
}

/// Accepts a trimmed token text as the credential, unless it is empty.
pub fn accept_credential(candidate: &str) -> (outcome: Result<String, StartupError>)
    ensures
        outcome_view(outcome) == accepted(candidate@),
{
    if candidate.is_empty() {
        Err(StartupError::MissingCredential)
    } else {
        Ok(String::from_str(candidate))
    }
}

/// Picks the token at startup. The command-line argument wins over the
/// token file, even where it is blank; the text picked is trimmed; what is
/// left is the credential, unless nothing is left.
pub fn load_credential(argument: Option<&str>, file: Option<&str>) -> (outcome: Result<
    String,
    StartupError,
>)
    ensures
        outcome_view(outcome) == accepted(
            trimmed(credential_source(opt_text(argument), opt_text(file))),
        ),
{
    let source: &str = match argument {
        Some(given) => given,
        None => match file {
            Some(contents) => contents,
            None => "",
        },
    };
    proof {
        reveal_strlit("");
        assert(""@ =~= Seq::<char>::empty());
    }
    accept_credential(trim(source))
}

} // verus!
