//! Opening and closing tabs, and navigating a tab to a URL.
//!
//! Each use case alternates decisions with work that only the surrounding
//! program can do: to store a tab, to render a page, to record a visit.
//! The decisions are here. A use case is begun by `new`, which decides what
//! is to be done first; the program does it, and hands the outcome to
//! `execute`, which decides how to go on. Between the two the registry is
//! free: other callers may use it, and what they wrote is what `execute`
//! finds.

use crate::application::state::{BrowserState, RegistryView};
use crate::domain::entities::{HistoryEntry, HistoryEntryView, Tab, TabView};
use crate::domain::errors::{BrowserError, ErrorView};
use crate::domain::services::SecurityService;
use crate::domain::value_objects::{url_view, TabId, Timestamp, UrlView, ValidatedUrl};
use vstd::prelude::*;

verus! {

// ---------------------------------------------------------------------------
// Opening a tab
// ---------------------------------------------------------------------------
/// The registry after `tab` was opened: registered and active.
pub open spec fn after_open(v: RegistryView, tab: TabView) -> RegistryView {
    v.with_tab(tab).activated(tab.id)
}

/// A tab that is about to be opened. A tab that is not private has to be
/// stored before it is registered: the program stores [`Self::tab`] where
/// [`Self::must_save`] says so, and hands the outcome to [`Self::execute`].
pub struct OpenTabUseCase {
    tab: Tab,
}

impl View for OpenTabUseCase {
    type V = TabView;

    /// The tab that is about to be opened.
    closed spec fn view(&self) -> TabView {
        self.tab@
    }
}

impl OpenTabUseCase {
    /// Prepares a tab with the identifier `id`, made at the instant `now`.
    /// The tab is private if the registry is in private mode; it loads `url`
    /// if one is given.
    pub fn new_at(
        state: &BrowserState,
        url: Option<ValidatedUrl>,
        id: TabId,
        now: Timestamp,
    ) -> (pending: Self)
        ensures
            pending@ == TabView::fresh(id, now, url_view(url), state@.private_mode),
    {
        let is_private = state.is_private_mode();
        let tab = match url {
            Some(url) => Tab::with_url_at(id, now, url, is_private),
            None => Tab::new_at(id, now, is_private),
        };
        OpenTabUseCase { tab }
    }

    /// Prepares a tab with a new identifier, made now.
    pub fn new(state: &BrowserState, url: Option<ValidatedUrl>) -> (pending: Self)
        ensures
            pending@ == TabView::fresh(
                pending@.id,
                pending@.created_at,
                url_view(url),
                state@.private_mode,
            ),
    {
        OpenTabUseCase::new_at(state, url, TabId::new(), Timestamp::now())
    }

    /// The tab that is about to be opened.
    pub fn tab(&self) -> (tab: &Tab)
        ensures
            tab@ == self@,
    {
        &self.tab
    }

    /// Whether the tab has to be stored before it is registered: whether it
    /// is not private.
    pub fn must_save(&self) -> (b: bool)
        ensures
            b == !self@.is_private,
    {
        !self.tab.is_private
    }

    /// Registers the tab and makes it the active one, unless it had to be
    /// stored and `saved` reports that it was not: then nothing is
    /// registered, and the report comes back as `PersistenceFailure`. For a
    /// private tab `saved` is not looked at.
    pub fn execute(self, state: &mut BrowserState, saved: Result<(), String>) -> (r: Result<
        TabId,
        BrowserError,
    >)
        ensures
            final(state)@.well_formed(),
            if !self@.is_private && saved is Err {
                &&& r matches Err(e) && e@ == ErrorView::PersistenceFailure(saved->Err_0@)
                &&& final(state)@ == old(state)@
            } else {
                &&& r == Ok::<TabId, BrowserError>(self@.id)
                &&& final(state)@ == after_open(old(state)@, self@)
            },
    {
        state.recall_well_formed();
        if !self.tab.is_private {
            if let Err(report) = saved {
                return Err(BrowserError::PersistenceFailure(report));
            }
        }
        let id = state.add_tab(self.tab);
        state.set_active_tab(id);
        Ok(id)
    }
}

// ---------------------------------------------------------------------------
// Closing a tab
// ---------------------------------------------------------------------------
/// The registry after a successful close has picked the active tab anew:
/// if the closed tab was the active one and no tab has been made active
/// since, the oldest tab becomes the active one; with no tabs left, none is.
pub open spec fn reselected(v: RegistryView, was_active: bool) -> RegistryView {
    if was_active && v.active is None && v.tabs.len() > 0 {
        RegistryView { active: Some(v.tabs[0].id), ..v }
    } else {
        v
    }
}

/// The registry after the tab with identifier `id` was closed with success.
pub open spec fn after_close(v: RegistryView, id: TabId) -> RegistryView {
    reselected(v.without(id), v.active == Some(id))
}

/// A tab that was taken out of the registry and is about to be forgotten.
/// A tab that is not private has to be deleted from storage: the program
/// deletes it where [`Self::must_delete`] says so, and hands the outcome to
/// [`Self::execute`].
pub struct CloseTabUseCase {
    removed: Tab,
    was_active: bool,
}

impl CloseTabUseCase {
    /// The tab that was taken out.
    pub closed spec fn removed(&self) -> TabView {
        self.removed@
    }

    /// Whether the tab was the active one when it was taken out.
    pub closed spec fn was_active(&self) -> bool {
        self.was_active
    }

    /// Takes the tab with identifier `tab_id` out of the registry. Fails
    /// with `TabNotFound`, and changes nothing, if no such tab is registered.
    pub fn new(state: &mut BrowserState, tab_id: TabId) -> (r: Result<Self, BrowserError>)
        ensures
            final(state)@.well_formed(),
            final(state)@ == old(state)@.without(tab_id),
            match r {
                Ok(pending) => {
                    &&& old(state)@.get(tab_id) == Some(pending.removed())
                    &&& pending.was_active() == (old(state)@.active == Some(tab_id))
                },
                Err(e) => e@ == ErrorView::TabNotFound && !old(state)@.has(tab_id),
            },
    {
        let was_active = state.get_active_tab_id() == Some(tab_id);
        match state.remove_tab(tab_id) {
            Some(removed) => Ok(CloseTabUseCase { removed, was_active }),
            None => Err(BrowserError::TabNotFound),
        }
    }

    /// The identifier of the tab that was taken out.
    pub fn tab_id(&self) -> (id: TabId)
        ensures
            id == self.removed().id,
    {
        self.removed.id
    }

    /// Whether the tab has to be deleted from storage: whether it is not
    /// private.
    pub fn must_delete(&self) -> (b: bool)
        ensures
            b == !self.removed().is_private,
    {
        !self.removed.is_private
    }

    /// Ends the close. If the tab had to be deleted from storage and
    /// `deleted` reports that it was not, the report comes back as
    /// `PersistenceFailure` and the registry stays as it is: the tab is gone
    /// from the session all the same. Otherwise the active tab is picked
    /// anew, as [`reselected`] says.
    pub fn execute(self, state: &mut BrowserState, deleted: Result<(), String>) -> (r: Result<
        (),
        BrowserError,
    >)
        ensures
            final(state)@.well_formed(),
            if !self.removed().is_private && deleted is Err {
                &&& r matches Err(e) && e@ == ErrorView::PersistenceFailure(deleted->Err_0@)
                &&& final(state)@ == old(state)@
            } else {
                &&& r is Ok
                &&& final(state)@ == reselected(old(state)@, self.was_active())
            },
    {
        state.recall_well_formed();
        if !self.removed.is_private {
            if let Err(report) = deleted {
                return Err(BrowserError::PersistenceFailure(report));
            }
        }
        if self.was_active && state.get_active_tab_id().is_none() {
            let tabs = state.get_all_tabs();
            if tabs.len() > 0 {
                let next = tabs[0].id;
                proof {
                    assert(state@.tabs[0] == tabs@[0]@);
                    state@.lemma_index_of(0);
                }
                state.set_active_tab(next);
            }
        }
        Ok(())
    }
}

/// To open a tab under an identifier that is not in use and to close it
/// again leaves the tabs as they were, each in its place and unchanged,
/// and the closed tab is gone. Where there were no tabs, no tab is active
/// afterwards; where there were some, the oldest is.
pub proof fn lemma_open_then_close(v: RegistryView, tab: TabView)
    requires
        v.well_formed(),
        !v.has(tab.id),
    ensures
        after_open(v, tab).tabs.len() == v.tabs.len() + 1,
        after_open(v, tab).active == Some(tab.id),
        after_close(after_open(v, tab), tab.id).tabs == v.tabs,
        after_close(after_open(v, tab), tab.id).well_formed(),
        v.tabs.len() == 0 ==> after_close(after_open(v, tab), tab.id).active is None,
        v.tabs.len() > 0 ==> after_close(after_open(v, tab), tab.id).active == Some(
            v.tabs[0].id,
        ),
        after_close(after_open(v, tab), tab.id).get(tab.id) is None,
{
    BrowserState::lemma_with_tab_well_formed(v, tab);
    let o = after_open(v, tab);
    assert(o.tabs == v.tabs.push(tab));
    o.lemma_index_of(v.tabs.len() as int);
    assert(o.without(tab.id).tabs == v.tabs);
    BrowserState::lemma_without_well_formed(o, tab.id);
    let c = after_close(o, tab.id);
    if c.active is Some {
        assert(c.tabs[0].id == c.active->0);
    }
}

// ---------------------------------------------------------------------------
// Navigating
// ---------------------------------------------------------------------------
/// The tab as it is while `url` is being loaded into it, from the instant
/// `now` on.
pub open spec fn loading(tab: TabView, url: UrlView, now: Timestamp) -> TabView {
    TabView { is_loading: true, ..tab.pointed_at(url, now) }
}

/// Why a navigation to a URL that the security service accepted ends
/// before anything is written, if it does: the URL is blocked, or else the
/// tab is not registered.
pub open spec fn refusal(blocked: bool, tab: Option<TabView>) -> Option<ErrorView> {
    if blocked {
        Some(ErrorView::Blocked)
    } else if tab is None {
        Some(ErrorView::TabNotFound)
    } else {
        None
    }
}

/// Why the navigation of the tab `tab_id` to the URL written as `raw` ends
/// before anything is written, if it does: the failure with which the
/// security service refuses the text; or, for a URL that it accepts, what
/// [`refusal`] says of its answer on the block and of the tab.
pub open spec fn refused<S: SecurityService + ?Sized>(
    security: &S,
    v: RegistryView,
    tab_id: TabId,
    raw: Seq<char>,
) -> Option<ErrorView> {
    match security.validation(raw) {
        Err(e) => Some(e),
        Ok(url) => refusal(security.blocks(url), v.get(tab_id)),
    }
}

/// A navigation whose URL has passed the security service and whose tab is
/// marked as loading. The program renders [`Self::url`] and hands the
/// outcome to [`Self::execute`].
pub struct NavigateUseCase {
    tab: Tab,
    url: ValidatedUrl,
    started_at: Timestamp,
}

/// A navigation whose page is rendered and whose title is wanted. The
/// program asks the rendering engine for the title and hands the answer to
/// [`Self::resolve`].
pub struct PendingTitle {
    tab: Tab,
    url: ValidatedUrl,
}

/// A navigation whose visit is to be recorded. The program adds
/// [`Self::entry`] to the history and hands the outcome to
/// [`Self::execute`].
pub struct PendingHistory {
    tab: Tab,
    entry: HistoryEntry,
}

impl NavigateUseCase {
    /// The tab as this navigation left it in the registry.
    pub closed spec fn tab(&self) -> TabView {
        self.tab@
    }

    /// The URL that is being loaded.
    pub closed spec fn target(&self) -> UrlView {
        self.url@
    }

    /// The instant at which the navigation began.
    pub closed spec fn started_at(&self) -> Timestamp {
        self.started_at
    }

    /// Goes on with the navigation of the tab `tab_id` to `url`, a URL that
    /// the security service accepted, at the instant `now`; `blocked` is
    /// what the service answered when it was asked whether `url` is blocked.
    ///
    /// A blocked URL ends the navigation with `Blocked`, a tab that is not
    /// registered with `TabNotFound`, in this order and with nothing
    /// changed. Otherwise the tab is pointed at the URL, marked as loading
    /// and written to the registry, before any page is fetched.
    pub fn admit_at(
        state: &mut BrowserState,
        tab_id: TabId,
        url: ValidatedUrl,
        blocked: bool,
        now: Timestamp,
    ) -> (r: Result<Self, BrowserError>)
        ensures
            final(state)@.well_formed(),
            match refusal(blocked, old(state)@.get(tab_id)) {
                Some(e) => {
                    &&& r matches Err(err) && err@ == e
                    &&& final(state)@ == old(state)@
                },
                None => {
                    &&& r matches Ok(nav) && nav.started_at() == now && nav.target() == url@
                        && nav.tab() == loading(old(state)@.get(tab_id)->0, url@, now)
                    &&& final(state)@ == old(state)@.with_tab(loading(
                        old(state)@.get(tab_id)->0,
                        url@,
                        now,
                    ))
                },
            },
    {
        state.recall_well_formed();
        if blocked {
            return Err(BrowserError::Blocked);
        }
        let mut tab = match state.get_tab(tab_id) {
            Some(tab) => tab,
            None => {
                return Err(BrowserError::TabNotFound);
            },
        };
        tab.update_url_at(url.clone(), now);
        tab.set_loading(true);
        state.update_tab(tab.clone());
        Ok(NavigateUseCase { tab, url, started_at: now })
    }

    /// Begins the navigation of the tab `tab_id` to the URL written as
    /// `url_str`, at the instant `now`.
    ///
    /// The security service is asked to validate the text; what it refuses
    /// ends the navigation with the failure of the service, whether the tab
    /// is registered or not, and it is asked nothing more. Of a URL that it
    /// accepts it is asked whether the URL is blocked, and the navigation
    /// goes on as [`Self::admit_at`] says. A navigation that fails has
    /// changed nothing.
    pub fn new_at<S: SecurityService + ?Sized>(
        state: &mut BrowserState,
        security: &S,
        tab_id: TabId,
        url_str: &str,
        now: Timestamp,
    ) -> (r: Result<Self, BrowserError>)
        ensures
            final(state)@.well_formed(),
            match refused(security, old(state)@, tab_id, url_str@) {
                Some(e) => {
                    &&& r matches Err(err) && err@ == e
                    &&& final(state)@ == old(state)@
                },
                None => {
                    &&& r matches Ok(nav) && nav.started_at() == now && security.validation(
                        url_str@,
                    ) == Ok::<UrlView, ErrorView>(nav.target()) && nav.tab() == loading(
                        old(state)@.get(tab_id)->0,
                        nav.target(),
                        now,
                    ) && final(state)@ == old(state)@.with_tab(nav.tab())
                },
            },
    {
        state.recall_well_formed();
        let url = match security.validate_url(url_str) {
            Ok(url) => url,
            Err(e) => {
                return Err(e);
            },
        };
        let blocked = security.is_blocked(&url);
        NavigateUseCase::admit_at(state, tab_id, url, blocked, now)
    }

    /// Begins the navigation now. See [`Self::new_at`].
    pub fn new<S: SecurityService + ?Sized>(
        state: &mut BrowserState,
        security: &S,
        tab_id: TabId,
        url_str: &str,
    ) -> (r: Result<Self, BrowserError>)
        ensures
            final(state)@.well_formed(),
            match refused(security, old(state)@, tab_id, url_str@) {
                Some(e) => {
                    &&& r matches Err(err) && err@ == e
                    &&& final(state)@ == old(state)@
                },
                None => {
                    &&& r matches Ok(nav) && security.validation(url_str@) == Ok::<
                        UrlView,
                        ErrorView,
                    >(nav.target()) && nav.tab() == loading(
                        old(state)@.get(tab_id)->0,
                        nav.target(),
                        nav.started_at(),
                    ) && final(state)@ == old(state)@.with_tab(nav.tab())
                },
            },
    {
        NavigateUseCase::new_at(state, security, tab_id, url_str, Timestamp::now())
    }

    /// The URL that the program is to render.
    pub fn url(&self) -> (url: &ValidatedUrl)
        ensures
            url@ == self.target(),
    {
        &self.url
    }

    /// Whether the visit goes into the history: whether the tab is not
    /// private.
    pub fn is_recorded(&self) -> (b: bool)
        ensures
            b == !self.tab().is_private,
    {
        !self.tab.is_private
    }

    /// Goes on after the rendering engine was asked to load the page.
    ///
    /// If `rendered` reports a failure, the report comes back as
    /// `RenderFailure` and the registry stays as it is: the tab points at
    /// the new URL and is still marked as loading. If the page was rendered
    /// and the tab is private, the navigation ends here: the tab, as this
    /// navigation holds it, is marked as loaded and written to the
    /// registry. If the tab is not private, the title is wanted next, and
    /// nothing is written yet.
    pub fn execute(self, state: &mut BrowserState, rendered: Result<(), String>) -> (r: Result<
        Option<PendingTitle>,
        BrowserError,
    >)
        ensures
            final(state)@.well_formed(),
            match rendered {
                Err(report) => {
                    &&& r matches Err(e) && e@ == ErrorView::RenderFailure(report@)
                    &&& final(state)@ == old(state)@
                },
                Ok(_) => if self.tab().is_private {
                    &&& r matches Ok(None)
                    &&& final(state)@ == old(state)@.with_tab(
                        TabView { is_loading: false, ..self.tab() },
                    )
                } else {
                    &&& r matches Ok(Some(next)) && next.tab() == self.tab() && next.target()
                        == self.target()
                    &&& final(state)@ == old(state)@
                },
            },
    {
        state.recall_well_formed();
        if let Err(report) = rendered {
            return Err(BrowserError::RenderFailure(report));
        }
        let mut tab = self.tab;
        if tab.is_private {
            tab.set_loading(false);
            state.update_tab(tab);
            Ok(None)
        } else {
            Ok(Some(PendingTitle { tab, url: self.url }))
        }
    }
}

/// The title under which a page is recorded: the one that the rendering
/// engine gave, or the URL itself where it gave none.
pub open spec fn title_or_url(title: Result<String, String>, url: UrlView) -> Seq<char> {
    match title {
        Ok(t) => t@,
        Err(_) => url.text,
    }
}

impl PendingTitle {
    /// The tab as this navigation holds it.
    pub closed spec fn tab(&self) -> TabView {
        self.tab@
    }

    /// The URL that was loaded.
    pub closed spec fn target(&self) -> UrlView {
        self.url@
    }

    /// Settles the title and makes the entry for the history, as of the
    /// instant `now`. Where the rendering engine gave no title, the URL
    /// stands for it; that is no failure.
    pub fn resolve_at(self, title: Result<String, String>, now: Timestamp) -> (next: PendingHistory)
        ensures
            next.tab() == self.tab(),
            next.entry_view() == HistoryEntryView::first_visit(
                self.target(),
                title_or_url(title, self.target()),
                now,
            ),
    {
        let title = match title {
            Ok(t) => t,
            Err(_) => self.url.to_text(),
        };
        PendingHistory { tab: self.tab, entry: HistoryEntry::new_at(self.url, title, now) }
    }

    /// Settles the title and makes the entry for the history, as of now.
    pub fn resolve(self, title: Result<String, String>) -> (next: PendingHistory)
        ensures
            next.tab() == self.tab(),
            next.entry_view() == HistoryEntryView::first_visit(
                self.target(),
                title_or_url(title, self.target()),
                next.entry_view().visited_at,
            ),
    {
        self.resolve_at(title, Timestamp::now())
    }
}

impl PendingHistory {
    /// The tab as this navigation holds it.
    pub closed spec fn tab(&self) -> TabView {
        self.tab@
    }

    /// The entry that is to be added to the history.
    pub closed spec fn entry_view(&self) -> HistoryEntryView {
        self.entry@
    }

    /// The entry that the program is to add to the history.
    pub fn entry(&self) -> (entry: &HistoryEntry)
        ensures
            entry@ == self.entry_view(),
    {
        &self.entry
    }

    /// Ends the navigation after the history was asked to record the visit.
    ///
    /// If `recorded` reports a failure, the report comes back as
    /// `PersistenceFailure` and the registry stays as it is: the tab is
    /// still marked as loading. Otherwise the tab, as this navigation holds
    /// it, takes the title of the entry, is marked as loaded, and is
    /// written to the registry.
    pub fn execute(self, state: &mut BrowserState, recorded: Result<(), String>) -> (r: Result<
        (),
        BrowserError,
    >)
        ensures
            final(state)@.well_formed(),
            match recorded {
                Err(report) => {
                    &&& r matches Err(e) && e@ == ErrorView::PersistenceFailure(report@)
                    &&& final(state)@ == old(state)@
                },
                Ok(_) => {
                    &&& r is Ok
                    &&& final(state)@ == old(state)@.with_tab(
                        TabView {
                            title: self.entry_view().title,
                            is_loading: false,
                            ..self.tab()
                        },
                    )
                },
            },
    {
        state.recall_well_formed();
        if let Err(report) = recorded {
            return Err(BrowserError::PersistenceFailure(report));
        }
        let mut tab = self.tab;
        tab.update_title(self.entry.title);
        tab.set_loading(false);
        state.update_tab(tab);
        Ok(())
    }
}

} // verus!
