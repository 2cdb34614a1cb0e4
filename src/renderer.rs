//! The shared page renderer: its one-time startup as a state machine, and
//! the choice of output format for a rendered page.

use vstd::prelude::*;

use crate::artifact::{ArtifactPath, ArtifactView};

verus! {

/// Lifecycle of the process-wide renderer. `Unavailable` and `Started` are
/// final for the run.
#[derive(Debug, Clone, Copy, PartialEq, Eq, Structural)]
pub enum RendererState {
    NotStarted,
    Unavailable,
    Started,
}

/// What a caller of `acquire` does next.
#[derive(Debug, Clone, Copy, PartialEq, Eq, Structural)]
pub enum AcquireStep {
    /// Use the running renderer.
    Use,
    /// Skip the artifact: the renderer is unavailable for this run.
    Skip,
    /// Take the exclusive lock and start the renderer.
    Start,
}

/// What the one startup attempt ran into.
#[derive(Debug, Clone, Copy, PartialEq, Eq, Structural)]
pub enum StartupEvent {
    /// No session could be obtained; no launch was tried.
    NoSession,
    /// The renderer process did not launch.
    LaunchFailed,
    /// The renderer launched, but the session cookie was refused.
    CookieRejected,
    /// The renderer runs and holds the session cookie.
    Ready,
}

pub open spec fn acquire_spec(s: RendererState) -> AcquireStep {
    match s {
        RendererState::NotStarted => AcquireStep::Start,
        RendererState::Unavailable => AcquireStep::Skip,
        RendererState::Started => AcquireStep::Use,
    }
}

pub open spec fn startup_spec(s: RendererState, e: StartupEvent) -> RendererState {
    match s {
        RendererState::NotStarted => if e == StartupEvent::Ready {
            RendererState::Started
        } else {
            RendererState::Unavailable
        },
        _ => s,
    }
}

impl RendererState {
    /// The step for a caller that finds the renderer in this state. Under
    /// the shared lock a `Start` sends the caller to the exclusive lock, where
    /// it asks again: another caller may have finished the startup.
    pub fn acquire(&self) -> (r: AcquireStep)
        ensures
            r == acquire_spec(*self),
    {
        match self {
            RendererState::NotStarted => AcquireStep::Start,
            RendererState::Unavailable => AcquireStep::Skip,
            RendererState::Started => AcquireStep::Use,
        }
    }

    /// The state after a startup attempt ends in `e`. Only a renderer that
    /// was not started changes; a failed startup is never retried.
    pub fn after_startup(&self, e: StartupEvent) -> (r: RendererState)
        ensures
            r == startup_spec(*self, e),
            *self != RendererState::NotStarted ==> r == *self,
            r != RendererState::NotStarted,
    {
        match self {
            RendererState::NotStarted => {
                if e == StartupEvent::Ready {
                    RendererState::Started
                } else {
                    RendererState::Unavailable
                }
            },
            _ => *self,
        }
    }

    /// Whether shutdown has a renderer to close and wait for.
    pub fn needs_close(&self) -> (r: bool)
        ensures
            r == (*self == RendererState::Started),
    {
        *self == RendererState::Started
    }
}

/// How rendered pages are stored.
#[derive(Debug, Clone)]
pub enum PageConversion {
    /// One self-contained HTML document, made by the external converter at
    /// this path.
    SingleFile(String),
    /// A PDF of one single page.
    SinglePage,
    /// A standard paged PDF.
    Standard,
}

pub open spec fn page_extension_spec(c: PageConversion) -> Seq<char> {
    match c {
        PageConversion::SingleFile(_) => "html"@,
        _ => "pdf"@,
    }
}

impl PageConversion {
    /// The extension of a rendered page: `html` for the single-file mode,
    /// `pdf` otherwise.
    pub fn extension(&self) -> (r: &'static str)
        ensures
            r@ == page_extension_spec(*self),
    {
        match self {
            PageConversion::SingleFile(_) => "html",
            _ => "pdf",
        }
    }

    /// The destination of a rendered page: the artifact with this mode's
    /// extension.
    pub fn page_artifact(&self, a: &ArtifactPath) -> (r: ArtifactPath)
        ensures
            r@ == (ArtifactView { ext: Option::Some(page_extension_spec(*self)), ..a@ }),
    {
        a.with_extension(self.extension())
    }
}

} // verus!
