//! A rendering engine that fetches nothing: it takes the host of a URL for
//! the title of the page. For trying the browser out where no page can be
//! rendered.

use crate::domain::value_objects::{UrlView, ValidatedUrl};
use vstd::prelude::*;

verus! {

/// What a [`MockRenderer`] holds.
pub struct MockRendererView {
    pub url: Option<UrlView>,
    pub title: Seq<char>,
}

impl MockRendererView {
    /// The engine after it was asked to load `url`: it holds the URL, and
    /// the host of the URL for title, if the URL has a host.
    pub open spec fn loaded(self, url: UrlView) -> MockRendererView {
        MockRendererView {
            url: Some(url),
            title: match url.host {
                Some(host) => host,
                None => self.title,
            },
        }
    }
}

/// The stand-in engine.
pub struct MockRenderer {
    current_url: Option<ValidatedUrl>,
    current_title: String,
}

impl View for MockRenderer {
    type V = MockRendererView;

    closed spec fn view(&self) -> MockRendererView {
        MockRendererView {
            url: match self.current_url {
                Some(u) => Some(u@),
                None => None,
            },
            title: self.current_title@,
        }
    }
}

impl MockRenderer {
    /// An engine that has loaded nothing, with the title "New Tab".
    pub fn new() -> (engine: Self)
        ensures
            engine@ == (MockRendererView { url: None, title: "New Tab"@ }),
    {
        MockRenderer { current_url: None, current_title: String::from_str("New Tab") }
    }

    /// Pretends to load `url`. Never fails.
    pub fn load_url(&mut self, url: &ValidatedUrl)
        ensures
            final(self)@ == old(self)@.loaded(url@),
    {
        self.current_url = Some(url.clone());
        if let Some(host) = url.host_str() {
            self.current_title = String::from_str(host);
        }
    }

    /// The title of the page that was loaded last.
    pub fn get_title(&self) -> (title: String)
        ensures
            title@ == self@.title,
    {
        self.current_title.clone()
    }

    /// Scripts are not run: the answer is the empty text.
    pub fn execute_javascript(&self, script: &str) -> (answer: String)
        ensures
            answer@ == Seq::<char>::empty(),
    {
        String::new()
    }

    /// No picture is taken: the answer is empty.
    pub fn take_screenshot(&self) -> (picture: Vec<u8>)
        ensures
            picture@ == Seq::<u8>::empty(),
    {
        Vec::new()
    }
}

impl Default for MockRenderer {
    fn default() -> (engine: Self)
        ensures
            engine@ == (MockRendererView { url: None, title: "New Tab"@ }),
    {
        MockRenderer::new()
    }
}

} // verus!
