//! The failures that a command can report.
use vstd::prelude::*;

use crate::storage::Reply;

verus! {

/// Why a command did not complete.
#[derive(Debug, Clone, PartialEq, Eq)]
pub enum CliError {
    /// The argument map holds no session credentials.
    NotLoggedIn,
    /// A required argument is absent and cannot be obtained.
    MissingArgument(String),
    /// A user path fails the structural check (it lacks the root marker).
    InvalidPath(String),
    /// The user id is not a decimal number that fits in 64 bits.
    InvalidUserId(String),
    /// The transport could not complete the exchange.
    Network(String),
    /// The reply did not match the expected schema.
    Deserialization(String),
    /// The service reported a logical failure of the given kind.
    Server(String),
    /// The service answered with a variant the command does not expect.
    UnexpectedReply(Reply),
    /// The configuration file could not be read or written.
    ConfigIo(String),
    /// The configuration file could not be decoded.
    ConfigParse(String),
}

} // verus!
