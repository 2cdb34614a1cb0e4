//! Parameters of the sign-in methods, and which of them can sign in.

use vstd::prelude::*;

use crate::errors::LoginFailedError;

verus! {

/// A session cookie given directly.
#[derive(Debug, Clone)]
pub struct CredentialFromRawParams {
    pub session_cookie: String,
}

#[derive(Debug, Clone)]
pub struct CredentialFromUsernamePasswordParams {
    pub username: String,
    pub password: String,
}

/// Interactive sign-in needs no parameters.
#[derive(Debug, Clone, Copy)]
pub struct CredentialFromGraphicalParams {}

/// The RWTH single sign-on with a one-time password.
#[derive(Debug, Clone)]
pub struct CredentialFromRwthParams {
    pub username: String,
    pub password: String,
    pub totp: String,
    pub totp_secret: String,
}

/// The sign-in to attempt, or why there is none.
#[derive(Debug, Clone)]
pub enum LoginParams {
    Raw(CredentialFromRawParams),
    UsernamePassword(CredentialFromUsernamePasswordParams),
    Graphical(CredentialFromGraphicalParams),
    Rwth(CredentialFromRwthParams),
    /// Another task's sign-in failed.
    LoginFailed,
    /// Another task has signed in already.
    LoginComplete,
    /// No parameters were set.
    Unset,
}

/// The reason given when `p` holds no sign-in to attempt.
pub open spec fn refusal_reason(p: LoginParams) -> Option<Seq<char>> {
    match p {
        LoginParams::LoginFailed => Option::Some("Login failed in other thread"@),
        LoginParams::LoginComplete => Option::Some("Login already complete in other thread"@),
        LoginParams::Unset => Option::Some("No login params set"@),
        _ => Option::None,
    }
}

impl LoginParams {
    /// The error for parameters that hold no sign-in to attempt; `None` for
    /// those that do.
    pub fn refusal(&self) -> (r: Option<LoginFailedError>)
        ensures
            match refusal_reason(*self) {
                Option::None => r is None,
                Option::Some(reason) => r matches Option::Some(e) && e.message()@ == reason,
            },
    {
        match self {
            LoginParams::LoginFailed => Option::Some(
                LoginFailedError::new(String::from_str("Login failed in other thread")),
            ),
            LoginParams::LoginComplete => Option::Some(
                LoginFailedError::new(String::from_str("Login already complete in other thread")),
            ),
            LoginParams::Unset => Option::Some(
                LoginFailedError::new(String::from_str("No login params set")),
            ),
            _ => Option::None,
        }
    }
}

} // verus!
