//! The open operation: what to ask of the host, and what to report back.
//!
//! One invocation runs in three moves. The caller looks the documentation
//! window up in the host's registry and hands the answer to [`plan`]. It then
//! carries out the single request that [`plan`] returns. Whatever the host
//! replies goes to [`finish`], whose result is the result of the operation.

use vstd::prelude::*;
use crate::config::{WindowConfig, WindowConfigView, docs_window};

verus! {

/// The one request that an invocation makes of the host.
#[derive(Clone, Debug, PartialEq, Eq)]
pub enum Request<W> {
    /// Bring this window, which the lookup found, to the foreground.
    Focus(W),
    /// Create a window with this configuration.
    Create(WindowConfig),
}

/// Mathematical value of a [`Request`]: the handle of the window is left out.
pub enum RequestView {
    Focus,
    Create(WindowConfigView),
}

impl<W> View for Request<W> {
    type V = RequestView;

    open spec fn view(&self) -> RequestView {
        match self {
            Request::Focus(_) => RequestView::Focus,
            Request::Create(config) => RequestView::Create(config@),
        }
    }
}

/// The request that follows a lookup: focus the window if one was found,
/// create the documentation window otherwise.
pub open spec fn planned(found: bool) -> RequestView {
    if found {
        RequestView::Focus
    } else {
        RequestView::Create(docs_window())
    }
}

/// Decides what to ask of the host, given what the lookup of the
/// documentation window's label returned.
pub fn plan<W>(found: Option<W>) -> (request: Request<W>)
    ensures
        request@ == planned(found is Some),
        found matches Some(window) ==> request == Request::<W>::Focus(window),
{
    match found {
        Some(window) => Request::Focus(window),
        None => Request::Create(WindowConfig::docs()),
    }
}

/// Why an invocation failed. Each kind carries the host's message.
#[derive(Clone, Debug, PartialEq, Eq)]
pub enum OpenError {
    /// The existing window could not be brought to the foreground.
    FocusFailure(String),
    /// The new window could not be created.
    CreationFailure(String),
}

/// Mathematical value of an [`OpenError`].
pub enum OpenErrorView {
    FocusFailure(Seq<char>),
    CreationFailure(Seq<char>),
}

impl OpenErrorView {
    /// The host's message that the error carries.
    pub open spec fn message(self) -> Seq<char> {
        match self {
            OpenErrorView::FocusFailure(message) => message,
            OpenErrorView::CreationFailure(message) => message,
        }
    }
}

impl View for OpenError {
    type V = OpenErrorView;

    open spec fn view(&self) -> OpenErrorView {
        match self {
            OpenError::FocusFailure(message) => OpenErrorView::FocusFailure(message@),
            OpenError::CreationFailure(message) => OpenErrorView::CreationFailure(message@),
        }
    }
}

impl OpenError {
    /// Renders the error as the caller of the operation sees it: the host's
    /// message, with no mark of the kind.
    pub fn into_message(self) -> (message: String)
        ensures
            message@ == self@.message(),
    {
        match self {
            OpenError::FocusFailure(message) => message,
            OpenError::CreationFailure(message) => message,
        }
    }
}

/// The error that a refused request gives: its kind follows the request, its
/// message is the host's.
pub open spec fn refused(request: RequestView, message: Seq<char>) -> OpenErrorView {
    match request {
        RequestView::Focus => OpenErrorView::FocusFailure(message),
        RequestView::Create(_) => OpenErrorView::CreationFailure(message),
    }
}

/// Sorts the host's reply to a request: success stays success, a failure
/// becomes the error kind of the request that failed.
pub fn classify<W>(request: &Request<W>, reply: Result<(), String>) -> (outcome: Result<
    (),
    OpenError,
>)
    ensures
        reply is Ok <==> outcome is Ok,
        reply matches Err(message) ==> outcome matches Err(error) && error@ == refused(
            request@,
            message@,
        ),
{
    match reply {
        Ok(()) => Ok(()),
        Err(message) => match request {
            Request::Focus(_) => Err(OpenError::FocusFailure(message)),
            Request::Create(_) => Err(OpenError::CreationFailure(message)),
        },
    }
}

/// Ends an invocation: turns the host's reply to the request into the result
/// of the operation. A served request gives success. A refused one gives the
/// host's message as it came, so the message is empty only if the host's was.
/// Nothing is retried and no second request is made.
pub fn finish<W>(request: &Request<W>, reply: Result<(), String>) -> (result: Result<(), String>)
    ensures
        reply is Ok <==> result is Ok,
        reply matches Err(message) ==> result matches Err(text) && text@ == message@,
        reply matches Err(message) ==> message@.len() > 0 ==> (result matches Err(text)
            && text@.len() > 0),
{
    match classify(request, reply) {
        Ok(()) => Ok(()),
        Err(error) => Err(error.into_message()),
    }
}

} // verus!
