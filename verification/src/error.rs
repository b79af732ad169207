//! The failures that the manager reports.

use vstd::prelude::*;

verus! {

/// Why an operation of the manager failed.
#[derive(Debug, PartialEq, Eq)]
pub enum Error {
    /// The lock around the registered windows was poisoned.
    Mutex(String),
    /// The host could not say whether a window is visible.
    FailedToCheckWindowVisibility,
    /// The host could not show a window or give it input focus.
    FailedToShowWindow,
    /// The host could not hide a window.
    FailedToHideWindow,
    /// A query, registration or removal against the shortcut registry failed,
    /// or a notification could not be delivered.
    Other(String),
}

/// The mathematical value of an [`Error`]: its messages as sequences of
/// characters.
pub enum ErrorView {
    Mutex(Seq<char>),
    FailedToCheckWindowVisibility,
    FailedToShowWindow,
    FailedToHideWindow,
    Other(Seq<char>),
}

impl View for Error {
    type V = ErrorView;

    open spec fn view(&self) -> ErrorView {
        match self {
            Error::Mutex(message) => ErrorView::Mutex(message@),
            Error::FailedToCheckWindowVisibility => ErrorView::FailedToCheckWindowVisibility,
            Error::FailedToShowWindow => ErrorView::FailedToShowWindow,
            Error::FailedToHideWindow => ErrorView::FailedToHideWindow,
            Error::Other(message) => ErrorView::Other(message@),
        }
    }
}

impl Clone for Error {
    fn clone(&self) -> (copy: Error)
        ensures
            copy@ == self@,
    {
        match self {
            Error::Mutex(message) => Error::Mutex(message.clone()),
            Error::FailedToCheckWindowVisibility => Error::FailedToCheckWindowVisibility,
            Error::FailedToShowWindow => Error::FailedToShowWindow,
            Error::FailedToHideWindow => Error::FailedToHideWindow,
            Error::Other(message) => Error::Other(message.clone()),
        }
    }
}

/// The message carried when the lock around the registered windows is
/// poisoned.
pub open spec fn lock_message() -> Seq<char> {
    "failed to lock registered window"@
}

/// The message carried when the close shortcut could not be queried or
/// registered, or a window's own shortcut could not be registered.
pub open spec fn register_message() -> Seq<char> {
    "failed to register shortcut"@
}

/// The message carried when the close shortcut could not be queried or
/// removed.
pub open spec fn unregister_message() -> Seq<char> {
    "failed to unregister shortcut"@
}

/// The message carried when a window could not be told that it lost focus.
pub open spec fn notify_message() -> Seq<char> {
    "failed to emit event"@
}

/// What a caller has once it has tried to lock the registered windows: the
/// guard that it got, or the error for a poisoned lock where it got none.
pub fn locked<T>(guard: Option<T>) -> (result: Result<T, Error>)
    ensures
        guard matches Some(held) ==> result == Ok::<T, Error>(held),
        guard is None ==> (result matches Err(e) && e@ == ErrorView::Mutex(lock_message())),
{
    match guard {
        Some(held) => Ok(held),
        None => Err(Error::lock_failed()),
    }
}

impl Error {
    /// The error for a poisoned lock around the registered windows.
    pub fn lock_failed() -> (e: Error)
        ensures
            e@ == ErrorView::Mutex(lock_message()),
    {
        Error::Mutex("failed to lock registered window".to_owned())
    }

    /// The error for a failed query or registration of a shortcut.
    pub fn register_failed() -> (e: Error)
        ensures
            e@ == ErrorView::Other(register_message()),
    {
        Error::Other("failed to register shortcut".to_owned())
    }

    /// The error for a failed query or removal of the close shortcut.
    pub fn unregister_failed() -> (e: Error)
        ensures
            e@ == ErrorView::Other(unregister_message()),
    {
        Error::Other("failed to unregister shortcut".to_owned())
    }

    /// The error for a notification that could not be delivered.
    pub fn notify_failed() -> (e: Error)
        ensures
            e@ == ErrorView::Other(notify_message()),
    {
        Error::Other("failed to emit event".to_owned())
    }
}

} // verus!
