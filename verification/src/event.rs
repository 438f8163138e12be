//! What the development session reacts to, and what it asks to be done.
use vstd::prelude::*;
use crate::error::DevError;

verus! {

/// The kind of a file-system event, as the watcher reports it, without the
/// details that the decisions do not read.
#[derive(PartialEq, Eq, Structural, Clone, Copy, Debug)]
pub enum FsEventKind {
    /// An event of an unknown kind.
    Any,
    /// A file was accessed.
    Access,
    /// A file was created.
    Create,
    /// A file was modified.
    Modify,
    /// A file was removed.
    Remove,
    /// An event that is none of the above.
    Other,
}

impl FsEventKind {
    /// Whether an event of this kind changes the builder's sources.
    pub open spec fn spec_changes_sources(self) -> bool {
        ||| self is Create
        ||| self is Modify
        ||| self is Remove
    }

    /// Whether an event of this kind changes the builder's sources:
    /// creations, modifications and removals do, accesses and other events do not.
    pub fn changes_sources(&self) -> (r: bool)
        ensures
            r == self.spec_changes_sources(),
    {
        match self {
            FsEventKind::Create | FsEventKind::Modify | FsEventKind::Remove => true,
            _ => false,
        }
    }
}

/// An event that the session reacts to. `C` is the handle of a running builder process.
pub enum InputEvent<C> {
    /// A request to kill the builder process was carried out, or failed.
    BuilderKilled(Result<(), std::io::Error>),
    /// The file-system watcher reported an event, or an error.
    Notify(Result<FsEventKind, notify::Error>),
    /// The builder process was spawned, or spawning it failed.
    BuilderStarted(Result<C, std::io::Error>),
    /// The browser was opened, or opening it failed.
    BrowserOpened(Result<(), std::io::Error>),
    /// The file server stopped with an error.
    ServerError(std::io::Error),
}

/// Something that the session asks to be done. `C` is the handle of a running builder process.
pub enum OutputEvent<C> {
    /// Print this text on standard error.
    Stderr(String),
    /// Spawn the builder process.
    RunBuilder,
    /// Kill this builder process.
    KillChildProcess(C),
    /// End the session with this error.
    Error(DevError),
    /// Open the site in a browser.
    OpenBrowser,
}

} // verus!
