//! The credentials of the tracker's user.

use vstd::prelude::*;

verus! {

/// Login and password with which requests to the tracker are authenticated.
pub struct Client {
    pub login: String,
    pub password: String,
}

impl Client {
    /// The credentials of the user `login`.
    pub fn new(login: &str, password: &str) -> (client: Self)
        ensures
            client.login@ == login@,
            client.password@ == password@,
    {
        Self { login: login.to_owned(), password: password.to_owned() }
    }
}

} // verus!
