//! The failures that the watcher operations surface to their caller.

use vstd::prelude::*;

verus! {

/// `notify::Error`, the error of the native notification layer.
///
/// The library never looks inside a value of this type: it receives one from
/// the native layer and hands the same value on to the caller.
#[verifier::external_type_specification]
#[verifier::external_body]
pub struct ExNotifyError(notify::Error);

/// A failure of a watcher operation.
#[derive(Debug)]
pub enum WatchError {
    /// The path, which was asked for, may not be watched.
    AuthorizationDenied(String),
    /// The native notification layer refused a registration or reported a
    /// fault at run time. The first field is its error, the second the path
    /// that it named, if it named one.
    NativeWatchError(notify::Error, Option<String>),
    /// The handle refers to no live watcher.
    UnknownHandle(u32),
}

/// The mathematical content of a [`WatchError`].
pub enum WatchErrorView {
    AuthorizationDenied(Seq<char>),
    NativeWatchError(notify::Error, Option<Seq<char>>),
    UnknownHandle(u32),
}

/// The characters of an optional path.
pub open spec fn path_view(path: Option<String>) -> Option<Seq<char>> {
    match path {
        Some(p) => Some(p@),
        None => None,
    }
}

impl View for WatchError {
    type V = WatchErrorView;

    open spec fn view(&self) -> WatchErrorView {
        match *self {
            WatchError::AuthorizationDenied(path) => WatchErrorView::AuthorizationDenied(path@),
            WatchError::NativeWatchError(cause, path) => WatchErrorView::NativeWatchError(
                cause,
                path_view(path),
            ),
            WatchError::UnknownHandle(rid) => WatchErrorView::UnknownHandle(rid),
        }
    }
}

} // verus!
