//! The capability that the fetcher asks of an HTTP client.

use vstd::prelude::*;

verus! {

/// What the tracker answered: the status code and the bytes of the body.
#[derive(Debug, PartialEq, Eq, Clone)]
pub struct HttpResponse {
    pub status: u16,
    pub body: Vec<u8>,
}

/// A request that got no answer: the connection, the name lookup or the
/// encryption failed.
#[derive(Debug, PartialEq, Eq, Clone)]
pub struct TransportError {
    pub message: String,
}

/// How a request ends.
pub type Reply = Result<HttpResponse, TransportError>;

impl HttpResponse {
    /// Whether the status is one of success: 200 to 299.
    pub open spec fn succeeded(self) -> bool {
        200 <= self.status <= 299
    }

    /// Whether the status is one of success: 200 to 299.
    pub fn is_success(&self) -> (success: bool)
        ensures
            success == self.succeeded(),
    {
        200 <= self.status && self.status <= 299
    }
}

/// Performs authenticated GET requests.
pub trait ClientTrait {
    /// Whether `reply` is something that this client may return for `url`.
    /// A client that makes no statement about its replies leaves this as it
    /// is: every reply is possible.
    open spec fn answers(&self, url: Seq<char>, reply: Reply) -> bool {
        true
    }

    /// Sends a GET request to `url` and waits for the reply.
    fn request_get(&self, url: &str) -> (reply: Reply)
        ensures
            self.answers(url@, reply),
    ;
}

} // verus!
