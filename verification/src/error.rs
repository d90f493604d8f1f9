//! The agent's error type.

use vstd::prelude::*;

verus! {

/// `std::str::Utf8Error`, carried through unread.
#[verifier::external_type_specification]
#[verifier::external_body]
pub struct ExUtf8Error(std::str::Utf8Error);

/// `std::io::Error`, carried through unread.
#[verifier::external_type_specification]
#[verifier::external_body]
pub struct ExIoError(std::io::Error);

/// Why an operation of the agent failed.
#[derive(Debug)]
pub enum AgentError {
    /// The control channel could not be opened, read or written.
    WebSocketError(String),
    /// A remote command ran and reported failure; holds what it wrote to its
    /// error stream.
    CommandError(String),
    /// Output of a remote command was not UTF-8.
    Utf8Error(std::str::Utf8Error),
    /// The remote command could not be started.
    IoError(std::io::Error),
}

} // verus!
