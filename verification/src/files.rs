//! What operations on files and sockets come to.

use crate::error::{Error, IoErrorKind, IoFailure, StopSignal};
use vstd::prelude::*;

verus! {

/// What creating the runtime directory at `path` comes to.
pub fn create_runtime_directory<S>(path: Vec<u8>, outcome: Result<(), S>) -> (result: Result<
    (),
    Error<S>,
>)
    ensures
        match outcome {
            Ok(_) => result is Ok,
            Err(source) => result == Err::<(), Error<S>>(
                Error::CreateRuntimeDirectory { path, source },
            ),
        },
{
    match outcome {
        Ok(_) => Ok(()),
        Err(source) => Err(Error::CreateRuntimeDirectory { path, source }),
    }
}

/// What removing the file at `path` comes to, which need not be there: that it
/// is missing is no failure.
pub fn remove_file_if_present<S>(path: Vec<u8>, outcome: Result<(), IoFailure<S>>) -> (result:
    Result<(), Error<S>>)
    ensures
        match outcome {
            Ok(_) => result is Ok,
            Err(failure) => if failure.kind == IoErrorKind::NotFound {
                result is Ok
            } else {
                result == Err::<(), Error<S>>(Error::RemoveFile { path, source: failure.source })
            },
        },
{
    match outcome {
        Ok(_) => Ok(()),
        Err(failure) => match failure.kind {
            IoErrorKind::NotFound => Ok(()),
            IoErrorKind::Other => Err(Error::RemoveFile { path, source: failure.source }),
        },
    }
}

/// What binding the daemon's socket at `path` comes to.
pub fn bind_daemon_socket<S>(path: Vec<u8>, outcome: Result<(), S>) -> (result: Result<
    (),
    Error<S>,
>)
    ensures
        match outcome {
            Ok(_) => result is Ok,
            Err(source) => result == Err::<(), Error<S>>(Error::BindDaemonSocket { path, source }),
        },
{
    match outcome {
        Ok(_) => Ok(()),
        Err(source) => Err(Error::BindDaemonSocket { path, source }),
    }
}

/// What installing the handler of a signal comes to.
pub fn install_signal_handler<S>(stop: StopSignal, outcome: Result<(), S>) -> (result: Result<
    (),
    Error<S>,
>)
    ensures
        match outcome {
            Ok(_) => result is Ok,
            Err(source) => result == Err::<(), Error<S>>(
                Error::InstallSignalHandler { stop, source },
            ),
        },
{
    match outcome {
        Ok(_) => Ok(()),
        Err(source) => Err(Error::InstallSignalHandler { stop, source }),
    }
}

} // verus!
