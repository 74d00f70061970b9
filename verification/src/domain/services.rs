//! The interface of the security service that every navigation passes.

use crate::domain::errors::{BrowserError, ErrorView};
use crate::domain::value_objects::{validation_view, UrlView, ValidatedUrl};
use vstd::prelude::*;

verus! {

/// A security service: it turns raw text into validated URLs, refuses
/// blocked hosts, and defuses HTML fragments.
///
/// A service answers by its own state and the question alone: the two spec
/// functions say what it makes of a text and whether it blocks a URL, and
/// the methods beside them return just that. What a navigation does with
/// the answers is said in `NavigateUseCase::new_at`.
pub trait SecurityService {
    /// What [`Self::validate_url`] makes of `raw`.
    spec fn validation(&self, raw: Seq<char>) -> Result<UrlView, ErrorView>;

    /// Whether [`Self::is_blocked`] refuses `url`.
    spec fn blocks(&self, url: UrlView) -> bool;

    /// Turns raw text, as a user types it, into a URL that may be opened.
    fn validate_url(&self, url: &str) -> (r: Result<ValidatedUrl, BrowserError>)
        ensures
            validation_view(r) == self.validation(url@),
    ;

    /// Whether navigation to `url` must be refused.
    fn is_blocked(&self, url: &ValidatedUrl) -> (b: bool)
        ensures
            b == self.blocks(url@),
    ;

    /// A copy of `html` with its dangerous fragments defused.
    fn sanitize_html(&self, html: &str) -> String;

    /// Whether a page at `url` may load content over plain HTTP.
    fn allow_mixed_content(&self, url: &ValidatedUrl) -> bool;
}

} // verus!
