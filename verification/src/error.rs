//! What can go wrong on the way to the backend.

use vstd::prelude::*;

verus! {

#[verifier::external_type_specification]
#[verifier::external_body]
pub struct ExParseError(url::ParseError);

/// An error of the command line client.
#[derive(Debug, PartialEq, Eq)]
pub enum CliError {
    /// A text is no URL.
    Url(url::ParseError),
    /// A project holds more than one branch of a name: the project, the
    /// name, and how many there are.
    BranchName(String, String, usize),
    /// No try of a request got through: how many there were.
    Send(usize),
    /// The backend answered a question that was not asked.
    UnexpectedReply,
    /// A text is neither a UUID nor a slug.
    ResourceId(String),
}

} // verus!
