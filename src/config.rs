//! Configuration values the engine receives already parsed.

use vstd::prelude::*;

verus! {

/// How the tool signs in to the site.
#[derive(Debug, Clone)]
pub enum Login {
    /// Web-service access only.
    ApiOnly { url: String },
    /// A session cookie given directly.
    Raw { url: String, cookie: String },
    /// Interactive sign-in in a browser window.
    Graphical { url: String },
    UserPass { url: String, username: String, password: String },
    /// The RWTH single sign-on with a one-time password.
    Rwth {
        url: String,
        username: String,
        password: String,
        totp: String,
        totp_secret: String,
    },
}

/// The site behind the RWTH sign-on.
pub fn rwth_url() -> (r: String)
    ensures
        r@ == "https://moodle.rwth-aachen.de/"@,
{
    String::from_str("https://moodle.rwth-aachen.de/")
}

impl Login {
    /// The site this login is for.
    pub fn url(&self) -> (r: &String)
        ensures
            r@ == (match self {
                Login::ApiOnly { url } => url@,
                Login::Raw { url, .. } => url@,
                Login::Graphical { url } => url@,
                Login::UserPass { url, .. } => url@,
                Login::Rwth { url, .. } => url@,
            }),
    {
        match self {
            Login::ApiOnly { url } => url,
            Login::Raw { url, .. } => url,
            Login::Graphical { url } => url,
            Login::UserPass { url, .. } => url,
            Login::Rwth { url, .. } => url,
        }
    }
}

/// The shared session-cookie cell: readers wait until it leaves
/// `NotChecked`; the other two states are final.
#[derive(Debug, Clone)]
pub enum LoginState {
    NotChecked,
    Unavailable,
    Cookie { cookie: String },
}

impl LoginState {
    /// Whether a waiting reader can stop polling.
    pub fn is_resolved(&self) -> (r: bool)
        ensures
            r == !(*self is NotChecked),
    {
        match self {
            LoginState::NotChecked => false,
            _ => true,
        }
    }

    /// The session cookie, once there is one.
    pub fn cookie(&self) -> (r: Option<String>)
        ensures
            match self {
                LoginState::Cookie { cookie } => r == Option::Some(*cookie),
                _ => r is None,
            },
    {
        match self {
            LoginState::Cookie { cookie } => Option::Some(cookie.clone()),
            _ => Option::None,
        }
    }
}

/// A course to archive.
#[derive(Debug, Clone)]
pub struct Course {
    pub id: u64,
    pub name: String,
}

/// The kinds of course modules that can be archived.
#[derive(Debug, Clone, Copy, PartialEq, Eq, Structural, Hash)]
pub enum Module {
    Resource,
    Folder,
    Pdfannotator,
    Assign,
    Label,
    Url,
    Page,
    Quiz,
    Feedback,
    Glossary,
    Vpl,
    Lti,
    Forum,
    Hsuforum,
    Grouptool,
}

/// Video extraction: the downloader program, its extra arguments and how
/// many downloads run side by side.
#[derive(Debug, Clone)]
pub struct Youtube {
    pub path: String,
    pub params: Vec<String>,
    pub parallel_downloads: u32,
}

impl Youtube {
    /// How many queue workers to start: none without video extraction.
    pub fn worker_count(youtube: &Option<Youtube>) -> (r: u32)
        ensures
            r == match youtube {
                Option::None => 0,
                Option::Some(y) => y.parallel_downloads,
            },
    {
        match youtube {
            Option::None => 0,
            Option::Some(y) => y.parallel_downloads,
        }
    }
}

} // verus!
