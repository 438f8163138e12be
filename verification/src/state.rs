//! The state machine that keeps at most one builder process running, and
//! replaces it when the builder's sources change.
use vstd::prelude::*;
use crate::error::DevError;
use crate::event::{FsEventKind, InputEvent, OutputEvent};

verus! {

/// Where the builder process stands. `C` is the handle of a running builder process.
pub enum BuilderState<C> {
    /// No builder process is running or being spawned.
    Idle,
    /// A builder process is being spawned, but the sources changed since it was asked for.
    Obsolete,
    /// A builder process is being spawned.
    Starting,
    /// This builder process is running.
    Started(C),
}

impl<C> Default for BuilderState<C> {
    /// A session starts with the builder being spawned.
    fn default() -> (r: Self)
        ensures
            r == BuilderState::<C>::Starting,
    {
        BuilderState::Starting
    }
}

impl<C> BuilderState<C> {
    /// Takes the running builder process out, if there is one, and leaves `None` behind.
    pub fn killing(&mut self) -> (r: Option<C>)
        ensures
            *final(self) == BuilderState::<C>::Idle,
            r == (match *old(self) {
                BuilderState::Started(c) => Some(c),
                _ => None,
            }),
    {
        let mut previous = BuilderState::Idle;
        std::mem::swap(self, &mut previous);
        match previous {
            BuilderState::Started(child) => Some(child),
            _ => None,
        }
    }
}

/// The state of a development session.
pub struct State<C> {
    /// Where the builder process stands.
    pub builder: BuilderState<C>,
}

impl<C> Default for State<C> {
    /// A session starts with the builder being spawned.
    fn default() -> (r: Self)
        ensures
            r.builder == BuilderState::<C>::Starting,
    {
        State { builder: BuilderState::default() }
    }
}

/// The builder state and output that follow a report that killing the builder succeeded or failed.
pub open spec fn after_builder_killed<C>(
    s: BuilderState<C>,
    result: Result<(), std::io::Error>,
) -> (BuilderState<C>, Option<OutputEvent<C>>) {
    match result {
        Ok(_) => (BuilderState::Idle, Some(OutputEvent::RunBuilder)),
        Err(e) => (s, Some(OutputEvent::Error(DevError::Io(e)))),
    }
}

/// The builder state and output that follow a report of the file-system watcher.
pub open spec fn after_fs_change<C>(
    s: BuilderState<C>,
    result: Result<FsEventKind, notify::Error>,
) -> (BuilderState<C>, Option<OutputEvent<C>>) {
    match result {
        Ok(kind) => if kind.spec_changes_sources() {
            match s {
                BuilderState::Starting => (BuilderState::Obsolete, None),
                BuilderState::Started(c) => (BuilderState::Idle, Some(OutputEvent::KillChildProcess(c))),
                _ => (s, None),
            }
        } else {
            (s, None)
        },
        Err(e) => (s, Some(OutputEvent::Error(DevError::FsWatch(e)))),
    }
}

/// The builder state and output that follow a report that spawning the builder succeeded or failed.
pub open spec fn after_builder_started<C>(
    s: BuilderState<C>,
    result: Result<C, std::io::Error>,
) -> (BuilderState<C>, Option<OutputEvent<C>>) {
    match result {
        Ok(c) => match s {
            BuilderState::Idle | BuilderState::Starting => (BuilderState::Started(c), None),
            BuilderState::Obsolete => (BuilderState::Idle, Some(OutputEvent::KillChildProcess(c))),
            BuilderState::Started(current) => (BuilderState::Started(c), Some(OutputEvent::KillChildProcess(current))),
        },
        Err(e) => (s, Some(OutputEvent::Error(DevError::Io(e)))),
    }
}

/// The builder state and output that follow any input event.
pub open spec fn next<C>(s: BuilderState<C>, input: InputEvent<C>) -> (BuilderState<C>, Option<OutputEvent<C>>) {
    match input {
        InputEvent::BuilderKilled(result) => after_builder_killed(s, result),
        InputEvent::Notify(result) => after_fs_change(s, result),
        InputEvent::BuilderStarted(result) => after_builder_started(s, result),
        InputEvent::BrowserOpened(result) => match result {
            Ok(_) => (s, None),
            Err(e) => (s, Some(OutputEvent::Error(DevError::Io(e)))),
        },
        InputEvent::ServerError(e) => (s, Some(OutputEvent::Error(DevError::Io(e)))),
    }
}

impl<C> State<C> {
    /// Reacts to one input event: updates the builder state and says what is to be done, if anything.
    pub fn input_event(&mut self, input: InputEvent<C>) -> (r: Option<OutputEvent<C>>)
        ensures
            (final(self).builder, r) == next(old(self).builder, input),
    {
        match input {
            InputEvent::BuilderKilled(result) => self.builder_killed(result),
            InputEvent::Notify(result) => self.fs_change(result),
            InputEvent::BuilderStarted(child) => self.builder_started(child),
            InputEvent::BrowserOpened(result) => match result {
                Ok(_) => None,
                Err(error) => Some(OutputEvent::Error(DevError::Io(error))),
            },
            InputEvent::ServerError(error) => Some(OutputEvent::Error(DevError::Io(error))),
        }
    }

    /// Reacts to a report that killing the builder succeeded (run it again, nothing is held)
    /// or failed (report the error, change nothing).
    pub fn builder_killed(&mut self, result: Result<(), std::io::Error>) -> (r: Option<OutputEvent<C>>)
        ensures
            (final(self).builder, r) == after_builder_killed(old(self).builder, result),
    {
        match result {
            Ok(_) => {
                self.builder = BuilderState::Idle;
                Some(OutputEvent::RunBuilder)
            },
            Err(error) => Some(OutputEvent::Error(DevError::Io(error))),
        }
    }

    /// Reacts to a report of the file-system watcher: a change of the sources makes a builder
    /// being spawned obsolete and kills a running one; other events change nothing; an error
    /// is reported and changes nothing.
    pub fn fs_change(&mut self, result: Result<FsEventKind, notify::Error>) -> (r: Option<OutputEvent<C>>)
        ensures
            (final(self).builder, r) == after_fs_change(old(self).builder, result),
    {
        match result {
            Ok(kind) => if kind.changes_sources() {
                match &self.builder {
                    BuilderState::Starting => {
                        self.builder = BuilderState::Obsolete;
                        None
                    },
                    BuilderState::Started(_) => {
                        let child = self.builder.killing();
                        match child {
                            Some(child) => Some(OutputEvent::KillChildProcess(child)),
                            None => None,
                        }
                    },
                    BuilderState::Idle | BuilderState::Obsolete => None,
                }
            } else {
                None
            },
            Err(error) => Some(OutputEvent::Error(DevError::FsWatch(error))),
        }
    }

    /// Reacts to a report that spawning the builder succeeded (keep it, or kill it if it is
    /// obsolete, or kill the one it replaces) or failed (report the error, change nothing).
    pub fn builder_started(&mut self, child: Result<C, std::io::Error>) -> (r: Option<OutputEvent<C>>)
        ensures
            (final(self).builder, r) == after_builder_started(old(self).builder, child),
    {
        match child {
            Ok(child) => match &self.builder {
                BuilderState::Idle | BuilderState::Starting => {
                    self.builder = BuilderState::Started(child);
                    None
                },
                BuilderState::Obsolete => {
                    self.builder = BuilderState::Idle;
                    Some(OutputEvent::KillChildProcess(child))
                },
                BuilderState::Started(_) => {
                    let current = self.builder.killing();
                    self.builder = BuilderState::Started(child);
                    match current {
                        Some(current) => Some(OutputEvent::KillChildProcess(current)),
                        None => None,
                    }
                },
            },
            Err(error) => Some(OutputEvent::Error(DevError::Io(error))),
        }
    }
}

} // verus!
