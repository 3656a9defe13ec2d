//! The failure kinds that every component reports.

use vstd::prelude::*;

verus! {

/// Why an extraction from a page failed.
#[derive(Clone, Copy, Debug, PartialEq, Eq, Structural)]
pub enum Cause {
    /// A selector located no element, or more than one, where exactly one was expected.
    NotFound,
    /// An element lacks the attribute that was asked for.
    MissingAttribute,
    /// The page has none of the shapes that the adapter knows.
    Unrecognized,
}

/// What is known about a failed extraction: enough to find the markup that changed.
#[derive(Clone, Debug, PartialEq, Eq)]
pub struct Context {
    pub cause: Cause,
    /// The selector whose matches were examined; empty where no selector was involved.
    pub selector: String,
    /// The attribute that is missing, or a note on what was not recognized; empty for `NotFound`.
    pub detail: String,
    /// The markup in which the extraction was attempted.
    pub snapshot: String,
}

pub struct ContextView {
    pub cause: Cause,
    pub selector: Seq<char>,
    pub detail: Seq<char>,
    pub snapshot: Seq<char>,
}

impl View for Context {
    type V = ContextView;

    open spec fn view(&self) -> ContextView {
        ContextView {
            cause: self.cause,
            selector: self.selector@,
            detail: self.detail@,
            snapshot: self.snapshot@,
        }
    }
}

impl DeepView for Context {
    type V = ContextView;

    open spec fn deep_view(&self) -> ContextView {
        self@
    }
}

/// Every failure that leaves this library is one of these.
#[derive(Clone, Debug, PartialEq, Eq)]
pub enum Error {
    /// The path of a task URL has a shape that the adapter does not accept.
    WrongTaskUrl,
    /// No adapter accepts the host of a task URL.
    UnrecognizedSite,
    /// The site refused the username and password.
    WrongCredentials,
    /// The site treats the session as not logged in.
    AccessDenied,
    /// A page could not be read as expected.
    UnexpectedHTML(Context),
    /// A verdict text that the adapter's lexicon does not hold and that is no score.
    UnexpectedVerdict(String),
    /// The transport failed; the cause is handed on as it came.
    NetworkFailure(String),
}

pub enum ErrorView {
    WrongTaskUrl,
    UnrecognizedSite,
    WrongCredentials,
    AccessDenied,
    UnexpectedHTML(ContextView),
    UnexpectedVerdict(Seq<char>),
    NetworkFailure(Seq<char>),
}

impl View for Error {
    type V = ErrorView;

    open spec fn view(&self) -> ErrorView {
        match self {
            Error::WrongTaskUrl => ErrorView::WrongTaskUrl,
            Error::UnrecognizedSite => ErrorView::UnrecognizedSite,
            Error::WrongCredentials => ErrorView::WrongCredentials,
            Error::AccessDenied => ErrorView::AccessDenied,
            Error::UnexpectedHTML(context) => ErrorView::UnexpectedHTML(context@),
            Error::UnexpectedVerdict(token) => ErrorView::UnexpectedVerdict(token@),
            Error::NetworkFailure(cause) => ErrorView::NetworkFailure(cause@),
        }
    }
}

impl DeepView for Error {
    type V = ErrorView;

    open spec fn deep_view(&self) -> ErrorView {
        self@
    }
}

impl Error {
    /// Whether this failure says that the session is not logged in.
    pub fn is_access_denied(&self) -> (denied: bool)
        ensures
            denied == (self@ == ErrorView::AccessDenied),
    {
        match self {
            Error::AccessDenied => true,
            _ => false,
        }
    }

    /// A copy of this failure with the same content.
    pub fn duplicate(&self) -> (copy: Error)
        ensures
            copy@ == self@,
    {
        match self {
            Error::WrongTaskUrl => Error::WrongTaskUrl,
            Error::UnrecognizedSite => Error::UnrecognizedSite,
            Error::WrongCredentials => Error::WrongCredentials,
            Error::AccessDenied => Error::AccessDenied,
            Error::UnexpectedHTML(context) => Error::UnexpectedHTML(
                Context {
                    cause: context.cause,
                    selector: context.selector.clone(),
                    detail: context.detail.clone(),
                    snapshot: context.snapshot.clone(),
                },
            ),
            Error::UnexpectedVerdict(token) => Error::UnexpectedVerdict(token.clone()),
            Error::NetworkFailure(cause) => Error::NetworkFailure(cause.clone()),
        }
    }
}

} // verus!
