//! The order in which a client makes its configuration ready: it looks for its
//! working directory and, only where that is missing, makes it, downloads the
//! package and unpacks it, before it reads a value.

use vstd::prelude::*;
use crate::config_reader::IoFailure;
use crate::error::Error;

verus! {

/// What has just happened to a client that was asked for a value.
#[derive(Debug)]
pub enum Event {
    /// The client was asked for a value.
    Asked,
    /// The client looked for its working directory: whether it is there.
    WorkingPathChecked { exists: bool },
    /// The client tried to make its working directory.
    WorkingPathCreated(Result<(), IoFailure>),
    /// The client tried to download the package.
    Downloaded(Result<Vec<u8>, Error>),
    /// The client tried to unpack the package.
    Extracted(Result<(), Error>),
}

/// What a client does next.
#[derive(Debug, Clone)]
pub enum Action {
    /// Look whether the working directory is there.
    CheckWorkingPath,
    /// Make the working directory.
    CreateWorkingPath,
    /// Download the package.
    Download,
    /// Unpack the package into the working directory.
    Extract(Vec<u8>),
    /// Read the value.
    Get,
    /// Give up with the failure.
    Fail(Error),
}

/// What a client does after `event`. The package is downloaded only after the
/// working directory was missing and has been made, and unpacked only after it
/// has been downloaded; the first failure ends the work.
pub fn next_action(event: Event) -> (action: Action)
    ensures
        match event {
            Event::Asked => action == Action::CheckWorkingPath,
            Event::WorkingPathChecked { exists } => action == if exists {
                Action::Get
            } else {
                Action::CreateWorkingPath
            },
            Event::WorkingPathCreated(Ok(_)) => action == Action::Download,
            Event::WorkingPathCreated(Err(failure)) => action matches Action::Fail(error)
                && error@.kind == failure.kind@ && error@.message == failure.detail@,
            Event::Downloaded(Ok(package)) => action == Action::Extract(package),
            Event::Downloaded(Err(error)) => action == Action::Fail(error),
            Event::Extracted(Ok(_)) => action == Action::Get,
            Event::Extracted(Err(error)) => action == Action::Fail(error),
        },
{
    match event {
        Event::Asked => Action::CheckWorkingPath,
        Event::WorkingPathChecked { exists } => if exists {
            Action::Get
        } else {
            Action::CreateWorkingPath
        },
        Event::WorkingPathCreated(Ok(_)) => Action::Download,
        Event::WorkingPathCreated(Err(failure)) => Action::Fail(
            Error::new(failure.kind.as_str(), failure.detail.as_str()),
        ),
        Event::Downloaded(Ok(package)) => Action::Extract(package),
        Event::Downloaded(Err(error)) => Action::Fail(error),
        Event::Extracted(Ok(_)) => Action::Get,
        Event::Extracted(Err(error)) => Action::Fail(error),
    }
}

} // verus!
