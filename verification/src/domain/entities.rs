//! The records of a browsing session: tabs, bookmarks, history entries and
//! the security context of a page.

use crate::domain::value_objects::{
    Certificate,
    CertificateView,
    TabId,
    Timestamp,
    UrlView,
    ValidatedUrl,
};
use vstd::prelude::*;

verus! {

// ---------------------------------------------------------------------------
// Tabs
// ---------------------------------------------------------------------------
/// One browsing context.
///
/// A private tab never reaches persistent storage. Whether a tab is private
/// is fixed when it is made: no operation of this crate changes it. The
/// instant of last access never moves backwards under [`Tab::update_url`].
#[derive(Debug)]
pub struct Tab {
    pub id: TabId,
    pub title: String,
    pub url: Option<ValidatedUrl>,
    pub is_loading: bool,
    pub is_private: bool,
    pub created_at: Timestamp,
    pub last_accessed: Timestamp,
    pub favicon_url: Option<String>,
}

/// A [`Tab`] with its texts as sequences of characters.
pub struct TabView {
    pub id: TabId,
    pub title: Seq<char>,
    pub url: Option<UrlView>,
    pub is_loading: bool,
    pub is_private: bool,
    pub created_at: Timestamp,
    pub last_accessed: Timestamp,
    pub favicon_url: Option<Seq<char>>,
}

impl TabView {
    /// The tab as it is when made at the instant `now`: titled "New Tab" and
    /// idle where `url` is `None`, loading `url` otherwise.
    pub open spec fn fresh(
        id: TabId,
        now: Timestamp,
        url: Option<UrlView>,
        is_private: bool,
    ) -> TabView {
        TabView {
            id,
            title: "New Tab"@,
            url,
            is_loading: url is Some,
            is_private,
            created_at: now,
            last_accessed: now,
            favicon_url: None,
        }
    }

    /// The tab after it was pointed at `url` at the instant `now`.
    pub open spec fn pointed_at(self, url: UrlView, now: Timestamp) -> TabView {
        TabView { url: Some(url), last_accessed: self.last_accessed.later(now), ..self }
    }
}

impl View for Tab {
    type V = TabView;

    open spec fn view(&self) -> TabView {
        TabView {
            id: self.id,
            title: self.title@,
            url: match self.url {
                Some(u) => Some(u@),
                None => None,
            },
            is_loading: self.is_loading,
            is_private: self.is_private,
            created_at: self.created_at,
            last_accessed: self.last_accessed,
            favicon_url: match self.favicon_url {
                Some(f) => Some(f@),
                None => None,
            },
        }
    }
}

impl Tab {
    /// An empty tab with the given identifier, made at the instant `now`.
    pub fn new_at(id: TabId, now: Timestamp, is_private: bool) -> (tab: Tab)
        ensures
            tab@ == TabView::fresh(id, now, None, is_private),
    {
        Tab {
            id,
            title: String::from_str("New Tab"),
            url: None,
            is_loading: false,
            is_private,
            created_at: now,
            last_accessed: now,
            favicon_url: None,
        }
    }

    /// An empty tab with a new identifier, made now.
    pub fn new(is_private: bool) -> (tab: Tab)
        ensures
            tab@ == TabView::fresh(tab.id, tab.created_at, None, is_private),
    {
        Tab::new_at(TabId::new(), Timestamp::now(), is_private)
    }

    /// A tab with the given identifier that is loading `url`, made at the
    /// instant `now`.
    pub fn with_url_at(id: TabId, now: Timestamp, url: ValidatedUrl, is_private: bool) -> (tab:
        Tab)
        ensures
            tab@ == TabView::fresh(id, now, Some(url@), is_private),
    {
        let mut tab = Tab::new_at(id, now, is_private);
        tab.url = Some(url);
        tab.is_loading = true;
        tab
    }

    /// A tab with a new identifier that is loading `url`, made now.
    pub fn with_url(url: ValidatedUrl, is_private: bool) -> (tab: Tab)
        ensures
            tab@ == TabView::fresh(tab.id, tab.created_at, Some(url@), is_private),
    {
        Tab::with_url_at(TabId::new(), Timestamp::now(), url, is_private)
    }

    /// Points the tab at `url` at the instant `now`. The instant of last
    /// access becomes `now`, unless it was later already.
    pub fn update_url_at(&mut self, url: ValidatedUrl, now: Timestamp)
        ensures
            final(self)@ == old(self)@.pointed_at(url@, now),
    {
        self.url = Some(url);
        self.last_accessed = self.last_accessed.later_of(now);
    }

    /// Points the tab at `url`, as of now.
    pub fn update_url(&mut self, url: ValidatedUrl)
        ensures
            final(self)@ == old(self)@.pointed_at(url@, final(self).last_accessed),
            old(self).last_accessed.not_after(final(self).last_accessed),
    {
        let now = Timestamp::now();
        self.update_url_at(url, now);
    }

    /// Gives the tab the title `title`.
    pub fn update_title(&mut self, title: String)
        ensures
            final(self)@ == (TabView { title: title@, ..old(self)@ }),
    {
        self.title = title;
    }

    /// Marks the tab as loading or as idle.
    pub fn set_loading(&mut self, loading: bool)
        ensures
            final(self)@ == (TabView { is_loading: loading, ..old(self)@ }),
    {
        self.is_loading = loading;
    }
}

impl Clone for Tab {
    fn clone(&self) -> (copy: Self)
        ensures
            copy@ == self@,
    {
        Tab {
            id: self.id,
            title: self.title.clone(),
            url: match &self.url {
                Some(u) => Some(u.clone()),
                None => None,
            },
            is_loading: self.is_loading,
            is_private: self.is_private,
            created_at: self.created_at,
            last_accessed: self.last_accessed,
            favicon_url: match &self.favicon_url {
                Some(f) => Some(f.clone()),
                None => None,
            },
        }
    }
}

// ---------------------------------------------------------------------------
// Bookmarks
// ---------------------------------------------------------------------------
/// A page that the user asked to keep.
#[derive(Debug)]
pub struct Bookmark {
    /// Assigned by the repository; 0 until the bookmark is stored.
    pub id: i64,
    pub title: String,
    pub url: ValidatedUrl,
    pub folder: Option<String>,
    pub created_at: Timestamp,
    pub tags: Vec<String>,
}

/// A [`Bookmark`] with its texts as sequences of characters.
pub struct BookmarkView {
    pub id: i64,
    pub title: Seq<char>,
    pub url: UrlView,
    pub folder: Option<Seq<char>>,
    pub created_at: Timestamp,
    pub tags: Seq<Seq<char>>,
}

impl View for Bookmark {
    type V = BookmarkView;

    open spec fn view(&self) -> BookmarkView {
        BookmarkView {
            id: self.id,
            title: self.title@,
            url: self.url@,
            folder: match self.folder {
                Some(f) => Some(f@),
                None => None,
            },
            created_at: self.created_at,
            tags: self.tags@.map_values(|t: String| t@),
        }
    }
}

impl Bookmark {
    /// A bookmark not yet stored, made at the instant `now`: without
    /// identifier, folder or tags.
    pub fn new_at(title: String, url: ValidatedUrl, now: Timestamp) -> (bookmark: Bookmark)
        ensures
            bookmark@ == (BookmarkView {
                id: 0,
                title: title@,
                url: url@,
                folder: None,
                created_at: now,
                tags: Seq::empty(),
            }),
    {
        let bookmark = Bookmark {
            id: 0,
            title,
            url,
            folder: None,
            created_at: now,
            tags: Vec::new(),
        };
        assert(bookmark.tags@.map_values(|t: String| t@) == Seq::<Seq<char>>::empty());
        bookmark
    }

    /// A bookmark not yet stored, made now.
    pub fn new(title: String, url: ValidatedUrl) -> (bookmark: Bookmark)
        ensures
            bookmark@ == (BookmarkView {
                id: 0,
                title: title@,
                url: url@,
                folder: None,
                created_at: bookmark.created_at,
                tags: Seq::empty(),
            }),
    {
        Bookmark::new_at(title, url, Timestamp::now())
    }
}

// ---------------------------------------------------------------------------
// History
// ---------------------------------------------------------------------------
/// One visited page. The history keeps one entry per URL; to add an entry
/// for a URL that it holds already counts one more visit.
#[derive(Debug)]
pub struct HistoryEntry {
    /// Assigned by the repository; 0 until the entry is stored.
    pub id: i64,
    pub url: ValidatedUrl,
    pub title: String,
    pub visited_at: Timestamp,
    pub visit_count: i32,
}

/// A [`HistoryEntry`] with its texts as sequences of characters.
pub struct HistoryEntryView {
    pub id: i64,
    pub url: UrlView,
    pub title: Seq<char>,
    pub visited_at: Timestamp,
    pub visit_count: i32,
}

impl View for HistoryEntry {
    type V = HistoryEntryView;

    open spec fn view(&self) -> HistoryEntryView {
        HistoryEntryView {
            id: self.id,
            url: self.url@,
            title: self.title@,
            visited_at: self.visited_at,
            visit_count: self.visit_count,
        }
    }
}

impl HistoryEntryView {
    /// The entry for a first visit of `url` at the instant `now`.
    pub open spec fn first_visit(url: UrlView, title: Seq<char>, now: Timestamp) -> Self {
        HistoryEntryView { id: 0, url, title, visited_at: now, visit_count: 1 }
    }
}

impl HistoryEntry {
    /// The entry for a visit of `url` at the instant `now`, not yet stored.
    pub fn new_at(url: ValidatedUrl, title: String, now: Timestamp) -> (entry: HistoryEntry)
        ensures
            entry@ == HistoryEntryView::first_visit(url@, title@, now),
    {
        HistoryEntry { id: 0, url, title, visited_at: now, visit_count: 1 }
    }

    /// The entry for a visit of `url` now, not yet stored.
    pub fn new(url: ValidatedUrl, title: String) -> (entry: HistoryEntry)
        ensures
            entry@ == HistoryEntryView::first_visit(url@, title@, entry.visited_at),
    {
        HistoryEntry::new_at(url, title, Timestamp::now())
    }
}

// ---------------------------------------------------------------------------
// Security context
// ---------------------------------------------------------------------------
/// What a site may ask the user for.
#[derive(Debug, Clone, Copy, PartialEq, Eq, Structural)]
pub enum Permission {
    Camera,
    Microphone,
    Location,
    Notifications,
    Storage,
}

/// How far the connection of a page can be trusted.
#[derive(Debug)]
pub struct SecurityContext {
    pub is_secure: bool,
    pub certificate: Option<Certificate>,
    pub has_mixed_content: bool,
    pub permissions: Vec<Permission>,
}

/// A [`SecurityContext`] with its certificate by view.
pub struct SecurityContextView {
    pub is_secure: bool,
    pub certificate: Option<CertificateView>,
    pub has_mixed_content: bool,
    pub permissions: Seq<Permission>,
}

impl View for SecurityContext {
    type V = SecurityContextView;

    open spec fn view(&self) -> SecurityContextView {
        SecurityContextView {
            is_secure: self.is_secure,
            certificate: match self.certificate {
                Some(c) => Some(c@),
                None => None,
            },
            has_mixed_content: self.has_mixed_content,
            permissions: self.permissions@,
        }
    }
}

impl SecurityContextView {
    /// The context of a page of which nothing is known: not secure, no
    /// certificate, no permissions.
    pub open spec fn unknown() -> Self {
        SecurityContextView {
            is_secure: false,
            certificate: None,
            has_mixed_content: false,
            permissions: Seq::empty(),
        }
    }

    /// The context of a page served with `certificate`.
    pub open spec fn secured_by(certificate: CertificateView) -> Self {
        SecurityContextView {
            is_secure: true,
            certificate: Some(certificate),
            has_mixed_content: false,
            permissions: Seq::empty(),
        }
    }
}

impl SecurityContext {
    /// The context of a page of which nothing is known.
    pub fn new() -> (context: Self)
        ensures
            context@ == SecurityContextView::unknown(),
    {
        SecurityContext {
            is_secure: false,
            certificate: None,
            has_mixed_content: false,
            permissions: Vec::new(),
        }
    }

    /// The context of a page served over HTTPS with `certificate`.
    pub fn with_https(certificate: Certificate) -> (context: Self)
        ensures
            context@ == SecurityContextView::secured_by(certificate@),
    {
        SecurityContext {
            is_secure: true,
            certificate: Some(certificate),
            has_mixed_content: false,
            permissions: Vec::new(),
        }
    }
}

impl Default for SecurityContext {
    fn default() -> (context: Self)
        ensures
            context@ == SecurityContextView::unknown(),
    {
        SecurityContext::new()
    }
}

} // verus!
