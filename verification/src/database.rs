//! The database of one execution context: how its file is found and opened,
//! and the state that the context keeps of it.
//!
//! The library touches no file. Finding and opening the database is a
//! dialogue: the library says which step is next, the host performs it and
//! reports what came of it.

use crate::engine::{from_source, opening, opens, sound, EngineReader, Opening};
use crate::error::DBError;
use vstd::prelude::*;

verus! {

/// The two places where the database file is looked for.
#[derive(Clone, Copy, Debug, PartialEq, Eq, Structural)]
pub enum DatabaseLocation {
    /// `garrysmod/maxminddb.mmdb`, which is tried first.
    Primary,
    /// `garrysmod/data/maxminddb.dat`, which is tried where the first is missing.
    Fallback,
}

/// The path of the file at `location`.
pub open spec fn path_of(location: DatabaseLocation) -> Seq<char> {
    match location {
        DatabaseLocation::Primary => "garrysmod/maxminddb.mmdb"@,
        DatabaseLocation::Fallback => "garrysmod/data/maxminddb.dat"@,
    }
}

impl DatabaseLocation {
    /// The path of the file.
    pub fn path(self) -> (path: &'static str)
        ensures
            path@ == path_of(self),
    {
        match self {
            DatabaseLocation::Primary => "garrysmod/maxminddb.mmdb",
            DatabaseLocation::Fallback => "garrysmod/data/maxminddb.dat",
        }
    }
}

/// The next step in finding the database file.
#[derive(Clone, Copy, Debug, PartialEq, Eq, Structural)]
pub enum Discovery {
    /// See whether the file at this location exists, and report it to `probed`.
    Probe(DatabaseLocation),
    /// Map the file at this location, and report the outcome to `opened`.
    Open(DatabaseLocation),
}

/// What follows when the file at `location` was found to exist or not: a file
/// that exists is opened; after the first location the second is tried; after
/// the second the database is not installed.
pub open spec fn after_probe(location: DatabaseLocation, exists: bool) -> Result<
    Discovery,
    DBError,
> {
    if exists {
        Ok(Discovery::Open(location))
    } else {
        match location {
            DatabaseLocation::Primary => Ok(Discovery::Probe(DatabaseLocation::Fallback)),
            DatabaseLocation::Fallback => Err(DBError::NotInstalled),
        }
    }
}

/// The file that is opened, given which of the two files exist: the first
/// that exists. With neither, the database is not installed.
pub open spec fn discovered(primary_exists: bool, fallback_exists: bool) -> Result<
    DatabaseLocation,
    DBError,
> {
    if primary_exists {
        Ok(DatabaseLocation::Primary)
    } else if fallback_exists {
        Ok(DatabaseLocation::Fallback)
    } else {
        Err(DBError::NotInstalled)
    }
}

/// An opened database. Every lookup in it comes back.
pub struct DatabaseHandle {
    reader: EngineReader,
}

impl View for DatabaseHandle {
    type V = EngineReader;

    /// The engine's reader over the database.
    closed spec fn view(&self) -> EngineReader {
        self.reader
    }
}

impl DatabaseHandle {
    #[verifier::type_invariant]
    spec fn is_sound(self) -> bool {
        sound(self.reader)
    }

    /// The engine's reader over the database.
    pub(crate) fn reader(&self) -> (reader: &EngineReader)
        ensures
            *reader == self@,
            sound(*reader),
    {
        proof {
            use_type_invariant(self);
        }
        &self.reader
    }
}

/// What opening gives, when mapping the file came out as `outcome`: the
/// database where the engine opens the mapped file; its message as an error
/// where it refuses the file; the message of `outcome` as an error where the
/// file could not be mapped.
pub open spec fn is_opened(
    outcome: Result<memmap2::Mmap, String>,
    r: Result<DatabaseHandle, DBError>,
) -> bool {
    match outcome {
        Ok(source) => match opening(source) {
            Opening::Opened(reader) => r matches Ok(db) && db@ == reader,
            Opening::Refused(message) => r matches Err(DBError::Internal(detail)) && detail@
                == message,
            Opening::Undefined => false,
        },
        Err(message) => r matches Err(DBError::Internal(detail)) && detail == message,
    }
}

/// The first step in finding the database file.
pub fn init_db() -> (step: Discovery)
    ensures
        step == Discovery::Probe(DatabaseLocation::Primary),
{
    Discovery::Probe(DatabaseLocation::Primary)
}

/// What follows `Discovery::Probe(location)`, when the file was found to
/// exist or not: the next step, or the error that ends the search.
pub fn probed(location: DatabaseLocation, exists: bool) -> (step: Result<Discovery, DBError>)
    ensures
        step == after_probe(location, exists),
{
    if exists {
        Ok(Discovery::Open(location))
    } else {
        match location {
            DatabaseLocation::Primary => Ok(Discovery::Probe(DatabaseLocation::Fallback)),
            DatabaseLocation::Fallback => Err(DBError::NotInstalled),
        }
    }
}

/// Ends `Discovery::Open`: opens the database over the mapped file, or tells
/// why there is none. `outcome` is the map of the file, or the message of the
/// error that kept it from being mapped. The file has to be a sound database
/// or one that the engine refuses: on any other the engine may panic.
pub fn opened(outcome: Result<memmap2::Mmap, String>) -> (r: Result<DatabaseHandle, DBError>)
    requires
        outcome matches Ok(source) ==> opens(source),
    ensures
        is_opened(outcome, r),
{
    match outcome {
        Ok(source) => match from_source(source) {
            Ok(reader) => Ok(DatabaseHandle { reader }),
            Err(message) => Err(DBError::Internal(message)),
        },
        Err(message) => Err(DBError::Internal(message)),
    }
}

/// What one execution context knows of its database: the opened database, or
/// why there is none.
pub enum HandleState {
    Ready(DatabaseHandle),
    Failed(DBError),
}

/// The state that records `outcome`.
pub open spec fn state_of(outcome: Result<DatabaseHandle, DBError>) -> HandleState {
    match outcome {
        Ok(db) => HandleState::Ready(db),
        Err(e) => HandleState::Failed(e),
    }
}

/// What a refresh hands back when opening came out as `outcome`: nothing
/// where the database was opened, else the error.
pub open spec fn refresh_result(outcome: Result<DatabaseHandle, DBError>) -> Result<(), DBError> {
    match outcome {
        Ok(_) => Ok(()),
        Err(e) => Err(e),
    }
}

impl HandleState {
    /// The state of a context whose database was opened with `outcome`.
    pub fn new(outcome: Result<DatabaseHandle, DBError>) -> (state: HandleState)
        ensures
            state == state_of(outcome),
    {
        match outcome {
            Ok(db) => HandleState::Ready(db),
            Err(e) => HandleState::Failed(e),
        }
    }

    /// The database of the context, or why there is none.
    pub open spec fn current_of(self) -> Result<DatabaseHandle, DBError> {
        match self {
            HandleState::Ready(db) => Ok(db),
            HandleState::Failed(e) => Err(e),
        }
    }

    /// The database of the context, or why there is none.
    pub fn current(&self) -> (r: Result<&DatabaseHandle, &DBError>)
        ensures
            match self.current_of() {
                Ok(db) => r matches Ok(current) && *current == db,
                Err(e) => r matches Err(reason) && *reason == e,
            },
    {
        match self {
            HandleState::Ready(db) => Ok(db),
            HandleState::Failed(e) => Err(e),
        }
    }

    /// Records the outcome of opening the database anew: the state becomes
    /// that of `outcome`, whatever it was. An error is also handed back.
    pub fn refresh(&mut self, outcome: Result<DatabaseHandle, DBError>) -> (r: Result<(), DBError>)
        ensures
            *final(self) == state_of(outcome),
            r == refresh_result(outcome),
    {
        match outcome {
            Ok(db) => {
                *self = HandleState::Ready(db);
                Ok(())
            },
            Err(e) => {
                let reason = e.clone();
                *self = HandleState::Failed(e);
                Err(reason)
            },
        }
    }
}

} // verus!
