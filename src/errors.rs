//! Errors of the sign-in and renderer startup.

use vstd::prelude::*;

verus! {

/// The site reported no user id.
#[derive(Debug, Clone, Copy, PartialEq, Eq, Structural)]
pub struct MissingUserIdError;

impl MissingUserIdError {
    /// The text of the error.
    pub fn description(&self) -> (r: String)
        ensures
            r@ == "Missing user ID"@,
    {
        String::from_str("Missing user ID")
    }
}

/// A sign-in failed, for the given reason.
#[derive(Debug, Clone)]
pub struct LoginFailedError {
    message: String,
}

impl LoginFailedError {
    pub fn new(message: String) -> (r: LoginFailedError)
        ensures
            r.message()@ == message@,
    {
        LoginFailedError { message }
    }

    pub closed spec fn message(&self) -> String {
        self.message
    }

    /// The text of the error: the reason after a fixed lead.
    pub fn description(&self) -> (r: String)
        ensures
            r@ == "Login failed with reason: "@ + self.message()@,
    {
        let mut s = String::from_str("Login failed with reason: ");
        s.append(self.message.as_str());
        s
    }
}

/// The renderer could not be started, for the given reason.
#[derive(Debug, Clone)]
pub struct BrowserStartFailedError {
    message: String,
}

impl BrowserStartFailedError {
    pub fn new(message: String) -> (r: BrowserStartFailedError)
        ensures
            r.message()@ == message@,
    {
        BrowserStartFailedError { message }
    }

    pub closed spec fn message(&self) -> String {
        self.message
    }

    /// The text of the error: the reason after a fixed lead.
    pub fn description(&self) -> (r: String)
        ensures
            r@ == "Starting Browser failed with reason: "@ + self.message()@,
    {
        let mut s = String::from_str("Starting Browser failed with reason: ");
        s.append(self.message.as_str());
        s
    }
}

} // verus!
