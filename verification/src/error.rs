//! The errors that end a development session.
use vstd::prelude::*;
use vstd::string::to_string_from_display_ensures;

verus! {

/// Why a development session stopped.
pub enum DevError {
    /// Watching the builder's sources for changes failed.
    FsWatch(notify::Error),
    /// An input/output operation failed (the server, spawning, killing, opening the browser).
    Io(std::io::Error),
    /// No free local port could be found for the server.
    NoFreePort,
}

impl DevError {
    /// The error's message: that of the file-watch or I/O error it carries, as their
    /// `Display` renders it, or `no free port`.
    pub fn message(&self) -> (r: String)
        ensures
            match self {
                DevError::FsWatch(e) => to_string_from_display_ensures::<notify::Error>(e, r),
                DevError::Io(e) => to_string_from_display_ensures::<std::io::Error>(e, r),
                DevError::NoFreePort => r@ == "no free port"@,
            },
    {
        match self {
            DevError::FsWatch(e) => e.to_string(),
            DevError::Io(e) => e.to_string(),
            DevError::NoFreePort => String::from_str("no free port"),
        }
    }
}

} // verus!
