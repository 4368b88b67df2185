//! Why a fetch failed.

use super::client_trait::TransportError;
use vstd::prelude::*;

verus! {

/// The ways in which a fetch fails. Each of them ends the whole fetch.
#[derive(Debug, PartialEq, Eq, Clone)]
pub enum FetchError {
    /// A request got no answer.
    Transport(TransportError),
    /// The tracker answered with a status that is not one of success.
    Status { code: u16 },
    /// The body of an answer is not the document that was expected.
    Decode,
}

impl FetchError {
    /// Whether the tracker answered with a status that is not one of
    /// success.
    pub fn is_status(&self) -> (status: bool)
        ensures
            status == (self is Status),
    {
        match self {
            FetchError::Status { .. } => true,
            _ => false,
        }
    }

    /// Whether the body of an answer could not be read.
    pub fn is_decode(&self) -> (decode: bool)
        ensures
            decode == (self is Decode),
    {
        match self {
            FetchError::Decode => true,
            _ => false,
        }
    }

    /// Whether a request got no answer.
    pub fn is_transport(&self) -> (transport: bool)
        ensures
            transport == (self is Transport),
    {
        match self {
            FetchError::Transport(_) => true,
            _ => false,
        }
    }

    /// The status code, where the tracker answered with one that is not
    /// one of success.
    pub fn status(&self) -> (code: Option<u16>)
        ensures
            code == match *self {
                FetchError::Status { code } => Some(code),
                _ => None,
            },
    {
        match self {
            FetchError::Status { code } => Some(*code),
            _ => None,
        }
    }
}

} // verus!
