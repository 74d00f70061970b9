//! The failures that an operation of the browser core can end in. None is
//! fatal: each is a value handed back to the caller.

use vstd::prelude::*;

verus! {

/// Why an operation did not succeed.
#[derive(Debug)]
pub enum BrowserError {
    /// The text is no URL; holds the parser's description of the fault.
    InvalidUrl(String),
    /// The URL parsed, but its scheme (held here) is not one the browser opens.
    UnsupportedScheme(String),
    /// The URL's host is on the blocklist.
    Blocked,
    /// No tab with the given identifier is registered.
    TabNotFound,
    /// The rendering engine failed to load the page; holds its report.
    RenderFailure(String),
    /// A repository failed; holds its report.
    PersistenceFailure(String),
    /// The network failed; holds its report.
    NetworkFailure(String),
}

/// A [`BrowserError`] with its texts as sequences of characters.
pub enum ErrorView {
    InvalidUrl(Seq<char>),
    UnsupportedScheme(Seq<char>),
    Blocked,
    TabNotFound,
    RenderFailure(Seq<char>),
    PersistenceFailure(Seq<char>),
    NetworkFailure(Seq<char>),
}

impl ErrorView {
    /// The sentence shown to the user for this failure.
    pub open spec fn message(self) -> Seq<char> {
        match self {
            ErrorView::InvalidUrl(reason) => "Invalid URL: "@ + reason,
            ErrorView::UnsupportedScheme(scheme) => "Unsupported URL scheme: "@ + scheme,
            ErrorView::Blocked => "This URL is blocked for security reasons"@,
            ErrorView::TabNotFound => "Tab not found"@,
            ErrorView::RenderFailure(report) => "Failed to load URL: "@ + report,
            ErrorView::PersistenceFailure(report) => "Persistence failure: "@ + report,
            ErrorView::NetworkFailure(report) => "Network failure: "@ + report,
        }
    }
}

impl View for BrowserError {
    type V = ErrorView;

    open spec fn view(&self) -> ErrorView {
        match self {
            BrowserError::InvalidUrl(reason) => ErrorView::InvalidUrl(reason@),
            BrowserError::UnsupportedScheme(scheme) => ErrorView::UnsupportedScheme(scheme@),
            BrowserError::Blocked => ErrorView::Blocked,
            BrowserError::TabNotFound => ErrorView::TabNotFound,
            BrowserError::RenderFailure(report) => ErrorView::RenderFailure(report@),
            BrowserError::PersistenceFailure(report) => ErrorView::PersistenceFailure(report@),
            BrowserError::NetworkFailure(report) => ErrorView::NetworkFailure(report@),
        }
    }
}

impl BrowserError {
    /// The sentence shown to the user for this failure.
    pub fn message(&self) -> (text: String)
        ensures
            text@ == self@.message(),
    {
        match self {
            BrowserError::InvalidUrl(reason) => String::from_str("Invalid URL: ").concat(
                reason.as_str(),
            ),
            BrowserError::UnsupportedScheme(scheme) => String::from_str(
                "Unsupported URL scheme: ",
            ).concat(scheme.as_str()),
            BrowserError::Blocked => String::from_str("This URL is blocked for security reasons"),
            BrowserError::TabNotFound => String::from_str("Tab not found"),
            BrowserError::RenderFailure(report) => String::from_str("Failed to load URL: ").concat(
                report.as_str(),
            ),
            BrowserError::PersistenceFailure(report) => String::from_str(
                "Persistence failure: ",
            ).concat(report.as_str()),
            BrowserError::NetworkFailure(report) => String::from_str("Network failure: ").concat(
                report.as_str(),
            ),
        }
    }
}

} // verus!
