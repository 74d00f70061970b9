//! The registry of open tabs: which tabs exist, in the order in which they
//! were added, which of them is active, and whether new tabs are private.
//!
//! The registry is a plain value with one owner. A program that shares it
//! between tasks keeps it behind a lock and takes the lock for one call at a
//! time: each operation is atomic, a sequence of operations is not.

use crate::domain::entities::{Tab, TabView};
use crate::domain::value_objects::TabId;
use vstd::prelude::*;

verus! {

/// The contents of a [`BrowserState`].
pub struct RegistryView {
    /// The tabs, oldest first.
    pub tabs: Seq<TabView>,
    /// The active tab, if there is one.
    pub active: Option<TabId>,
    /// Whether new tabs are private.
    pub private_mode: bool,
}

impl RegistryView {
    /// A tab with identifier `id` is registered.
    pub open spec fn has(self, id: TabId) -> bool {
        exists|i: int| 0 <= i < self.tabs.len() && #[trigger] self.tabs[i].id == id
    }

    /// Where the tab with identifier `id` stands, for an `id` that is
    /// registered.
    pub open spec fn index_of(self, id: TabId) -> int {
        choose|i: int| 0 <= i < self.tabs.len() && #[trigger] self.tabs[i].id == id
    }

    /// The tab with identifier `id`, if it is registered.
    pub open spec fn get(self, id: TabId) -> Option<TabView> {
        if self.has(id) {
            Some(self.tabs[self.index_of(id)])
        } else {
            None
        }
    }

    /// No identifier is registered twice.
    pub open spec fn distinct_ids(self) -> bool {
        forall|i: int, j: int|
            0 <= i < j < self.tabs.len() ==> #[trigger] self.tabs[i].id != #[trigger] self.tabs[j].id
    }

    /// No identifier is registered twice, and the active tab, if any, is
    /// registered.
    pub open spec fn well_formed(self) -> bool {
        &&& self.distinct_ids()
        &&& self.active matches Some(id) ==> self.has(id)
    }

    /// The registry without tabs, with the given mode.
    pub open spec fn empty(private_mode: bool) -> RegistryView {
        RegistryView { tabs: Seq::empty(), active: None, private_mode }
    }

    /// The registry after `tab` was put in: in the place of the tab with the
    /// same identifier if there is one, behind all others if not.
    pub open spec fn with_tab(self, tab: TabView) -> RegistryView {
        if self.has(tab.id) {
            RegistryView { tabs: self.tabs.update(self.index_of(tab.id), tab), ..self }
        } else {
            RegistryView { tabs: self.tabs.push(tab), ..self }
        }
    }

    /// The registry after the tab with identifier `id` was taken out. If
    /// that tab was the active one, no tab is active afterwards.
    pub open spec fn without(self, id: TabId) -> RegistryView {
        if self.has(id) {
            RegistryView {
                tabs: self.tabs.remove(self.index_of(id)),
                active: if self.active == Some(id) {
                    None
                } else {
                    self.active
                },
                ..self
            }
        } else {
            self
        }
    }

    /// The registry after the tab with identifier `id` was made the active
    /// one; unchanged if no such tab is registered.
    pub open spec fn activated(self, id: TabId) -> RegistryView {
        if self.has(id) {
            RegistryView { active: Some(id), ..self }
        } else {
            self
        }
    }

    /// In a well-formed registry, the tab at index `i` is the one found
    /// under its identifier.
    pub proof fn lemma_index_of(self, i: int)
        requires
            self.distinct_ids(),
            0 <= i < self.tabs.len(),
        ensures
            self.has(self.tabs[i].id),
            self.index_of(self.tabs[i].id) == i,
            self.get(self.tabs[i].id) == Some(self.tabs[i]),
    {
        let id = self.tabs[i].id;
        let k = self.index_of(id);
        assert(self.tabs[k].id == id);
        if k < i {
            assert(self.tabs[k].id != self.tabs[i].id);
        } else if i < k {
            assert(self.tabs[i].id != self.tabs[k].id);
        }
    }
}

/// The views of the tabs in `tabs`, in order.
pub open spec fn views(tabs: Seq<Tab>) -> Seq<TabView> {
    tabs.map_values(|t: Tab| t@)
}

/// Where in `tabs` the tab with identifier `id` stands.
fn position_in(tabs: &Vec<Tab>, id: TabId) -> (found: Option<usize>)
    ensures
        match found {
            Some(i) => i < tabs.len() && tabs[i as int].id == id,
            None => forall|j: int| 0 <= j < tabs.len() ==> tabs[j].id != id,
        },
{
    let mut i: usize = 0;
    while i < tabs.len()
        invariant
            i <= tabs.len(),
            forall|j: int| 0 <= j < i ==> tabs[j].id != id,
        decreases tabs.len() - i,
    {
        if tabs[i].id == id {
            return Some(i);
        }
        i = i + 1;
    }
    None
}

/// The tabs of a session, the active tab, and the private-mode flag.
pub struct BrowserState {
    tabs: Vec<Tab>,
    active_tab: Option<TabId>,
    is_private_mode: bool,
}

impl View for BrowserState {
    type V = RegistryView;

    closed spec fn view(&self) -> RegistryView {
        RegistryView {
            tabs: views(self.tabs@),
            active: self.active_tab,
            private_mode: self.is_private_mode,
        }
    }
}

impl BrowserState {
    #[verifier::type_invariant]
    spec fn inv(self) -> bool {
        self@.well_formed()
    }

    /// A registry without tabs, not in private mode.
    pub fn new() -> (state: Self)
        ensures
            state@ == RegistryView::empty(false),
            state@.well_formed(),
    {
        let state = BrowserState { tabs: Vec::new(), active_tab: None, is_private_mode: false };
        assert(state@.tabs == Seq::<TabView>::empty());
        state
    }

    /// Recalls, for the proof of a caller, that every registry is well
    /// formed. Does nothing when run.
    pub fn recall_well_formed(&self)
        ensures
            self@.well_formed(),
    {
        proof {
            use_type_invariant(self);
        }
    }

    /// Where the tab with identifier `id` stands.
    fn position(&self, id: TabId) -> (found: Option<usize>)
        ensures
            match found {
                Some(i) => self@.has(id) && i == self@.index_of(id) && i < self@.tabs.len(),
                None => !self@.has(id),
            },
    {
        proof {
            use_type_invariant(self);
        }
        let found = position_in(&self.tabs, id);
        proof {
            if found is Some {
                let i = found->0 as int;
                assert(self@.tabs[i].id == id);
                self@.lemma_index_of(i);
            } else {
                assert forall|j: int| 0 <= j < self@.tabs.len() implies self@.tabs[j].id != id by {
                    assert(self.tabs@[j].id != id);
                }
            }
        }
        found
    }

    /// Takes the tabs and the active reference out, leaving the registry
    /// empty, so that they can be changed and put back by [`Self::attach`].
    fn detach(&mut self) -> (parts: (Vec<Tab>, Option<TabId>))
        ensures
            views(parts.0@) == old(self)@.tabs,
            parts.1 == old(self)@.active,
            old(self)@.well_formed(),
            final(self)@ == RegistryView::empty(old(self)@.private_mode),
    {
        proof {
            use_type_invariant(&*self);
        }
        let active = self.active_tab;
        self.active_tab = None;
        let mut tabs: Vec<Tab> = Vec::new();
        core::mem::swap(&mut self.tabs, &mut tabs);
        assert(self@.tabs == Seq::<TabView>::empty());
        (tabs, active)
    }

    /// Puts tabs and an active reference into the registry.
    fn attach(&mut self, tabs: Vec<Tab>, active: Option<TabId>)
        requires
            (RegistryView {
                tabs: views(tabs@),
                active,
                private_mode: old(self)@.private_mode,
            }).well_formed(),
        ensures
            final(self)@ == (RegistryView {
                tabs: views(tabs@),
                active,
                private_mode: old(self)@.private_mode,
            }),
    {
        proof {
            use_type_invariant(&*self);
        }
        self.active_tab = None;
        self.tabs = tabs;
        self.active_tab = active;
    }

    /// Registers `tab` and returns its identifier. A tab registered under
    /// the same identifier is replaced, in its place.
    pub fn add_tab(&mut self, tab: Tab) -> (id: TabId)
        ensures
            id == tab.id,
            final(self)@ == old(self)@.with_tab(tab@),
            final(self)@.well_formed(),
    {
        let id = tab.id;
        let found = self.position(id);
        let (mut tabs, active) = self.detach();
        let ghost before = RegistryView { tabs: views(tabs@), active, ..old(self)@ };
        assert(before == old(self)@);
        match found {
            Some(i) => {
                tabs.set(i, tab);
                assert(views(tabs@) == before.tabs.update(i as int, tab@));
            },
            None => {
                tabs.push(tab);
                assert(views(tabs@) == before.tabs.push(tab@));
            },
        }
        proof {
            Self::lemma_with_tab_well_formed(before, tab@);
        }
        self.attach(tabs, active);
        id
    }

    /// Takes the tab with identifier `id` out of the registry and returns
    /// it; `None`, and nothing changes, if no such tab is registered. If the
    /// tab was the active one, no tab is active afterwards.
    pub fn remove_tab(&mut self, tab_id: TabId) -> (removed: Option<Tab>)
        ensures
            final(self)@ == old(self)@.without(tab_id),
            final(self)@.well_formed(),
            match removed {
                Some(tab) => old(self)@.get(tab_id) == Some(tab@),
                None => !old(self)@.has(tab_id),
            },
    {
        match self.position(tab_id) {
            Some(i) => {
                let (mut tabs, active) = self.detach();
                let ghost before = RegistryView { tabs: views(tabs@), active, ..old(self)@ };
                assert(before == old(self)@);
                let tab = tabs.remove(i);
                assert(views(tabs@) == before.tabs.remove(i as int));
                proof {
                    Self::lemma_without_well_formed(before, tab_id);
                }
                let kept = if active == Some(tab_id) {
                    None
                } else {
                    active
                };
                self.attach(tabs, kept);
                Some(tab)
            },
            None => {
                proof {
                    use_type_invariant(&*self);
                }
                None
            },
        }
    }

    /// A copy of the tab with identifier `id`, if it is registered. Changes
    /// to the copy reach the registry only through [`Self::update_tab`].
    pub fn get_tab(&self, tab_id: TabId) -> (tab: Option<Tab>)
        ensures
            match tab {
                Some(t) => self@.get(tab_id) == Some(t@),
                None => self@.get(tab_id) is None,
            },
    {
        match self.position(tab_id) {
            Some(i) => {
                let tab = self.tabs[i].clone();
                assert(self@.tabs[i as int] == self.tabs@[i as int]@);
                Some(tab)
            },
            None => None,
        }
    }

    /// Stores `tab` under its identifier: in the place of the tab registered
    /// under it, or behind all others.
    pub fn update_tab(&mut self, tab: Tab)
        ensures
            final(self)@ == old(self)@.with_tab(tab@),
            final(self)@.well_formed(),
    {
        let _ = self.add_tab(tab);
    }

    /// Copies of all tabs, oldest first.
    pub fn get_all_tabs(&self) -> (tabs: Vec<Tab>)
        ensures
            views(tabs@) == self@.tabs,
    {
        let mut tabs: Vec<Tab> = Vec::new();
        let mut i: usize = 0;
        while i < self.tabs.len()
            invariant
                i <= self.tabs.len(),
                tabs@.map_values(|t: Tab| t@) == self@.tabs.subrange(0, i as int),
            decreases self.tabs.len() - i,
        {
            let ghost before = tabs@;
            let copy = self.tabs[i].clone();
            tabs.push(copy);
            assert(tabs@.map_values(|t: Tab| t@) == before.map_values(|t: Tab| t@).push(copy@));
            i = i + 1;
        }
        assert(self@.tabs.subrange(0, self.tabs.len() as int) == self@.tabs);
        tabs
    }

    /// How many tabs are registered.
    pub fn tab_count(&self) -> (count: usize)
        ensures
            count == self@.tabs.len(),
    {
        self.tabs.len()
    }

    /// Makes the tab with identifier `id` the active one. Nothing changes if
    /// no such tab is registered.
    pub fn set_active_tab(&mut self, tab_id: TabId)
        ensures
            final(self)@ == old(self)@.activated(tab_id),
            final(self)@.well_formed(),
    {
        proof {
            use_type_invariant(&*self);
        }
        if self.position(tab_id).is_some() {
            self.active_tab = Some(tab_id);
        }
    }

    /// The identifier of the active tab. It names a registered tab.
    pub fn get_active_tab_id(&self) -> (active: Option<TabId>)
        ensures
            active == self@.active,
            active matches Some(id) ==> self@.get(id) is Some,
    {
        proof {
            use_type_invariant(self);
        }
        self.active_tab
    }

    /// A copy of the active tab.
    pub fn get_active_tab(&self) -> (tab: Option<Tab>)
        ensures
            match tab {
                Some(t) => self@.active == Some(t.id) && self@.get(t.id) == Some(t@),
                None => self@.active is None,
            },
    {
        proof {
            use_type_invariant(self);
        }
        match self.active_tab {
            Some(id) => {
                let tab = self.get_tab(id);
                proof {
                    self@.lemma_index_of(self@.index_of(id));
                }
                tab
            },
            None => None,
        }
    }

    /// Switches private mode on or off. Tabs that exist keep their kind.
    pub fn set_private_mode(&mut self, enabled: bool)
        ensures
            final(self)@ == (RegistryView { private_mode: enabled, ..old(self)@ }),
            final(self)@.well_formed(),
    {
        proof {
            use_type_invariant(&*self);
        }
        self.is_private_mode = enabled;
    }

    /// Whether new tabs are private.
    pub fn is_private_mode(&self) -> (enabled: bool)
        ensures
            enabled == self@.private_mode,
    {
        self.is_private_mode
    }

    /// Takes all tabs out of the registry. No tab is active afterwards; the
    /// mode stays.
    pub fn clear_all_tabs(&mut self)
        ensures
            final(self)@ == RegistryView::empty(old(self)@.private_mode),
            final(self)@.well_formed(),
    {
        let _ = self.detach();
    }

    /// To make a tab the active one leaves a well-formed registry well
    /// formed; and in a well-formed registry the active tab is registered.
    pub proof fn lemma_activated_well_formed(v: RegistryView, id: TabId)
        requires
            v.well_formed(),
        ensures
            v.activated(id).well_formed(),
            v.active matches Some(active) ==> v.get(active) is Some,
    {
    }

    /// To put a tab into a well-formed registry leaves it well formed.
    pub proof fn lemma_with_tab_well_formed(v: RegistryView, tab: TabView)
        requires
            v.well_formed(),
        ensures
            v.with_tab(tab).well_formed(),
            v.with_tab(tab).get(tab.id) == Some(tab),
            forall|id: TabId| v.has(id) || id == tab.id <==> v.with_tab(tab).has(id),
    {
        let w = v.with_tab(tab);
        if v.has(tab.id) {
            let k = v.index_of(tab.id);
            assert(w.tabs[k].id == tab.id);
            assert forall|id: TabId| v.has(id) || id == tab.id implies w.has(id) by {
                if id == tab.id {
                    assert(w.tabs[k].id == id);
                } else {
                    let i = v.index_of(id);
                    assert(w.tabs[i].id == id);
                }
            }
            assert forall|id: TabId| w.has(id) implies v.has(id) || id == tab.id by {
                let i = w.index_of(id);
                assert(v.tabs[i].id == w.tabs[i].id);
            }
            assert forall|i: int, j: int| 0 <= i < j < w.tabs.len() implies #[trigger] w.tabs[i].id
                != #[trigger] w.tabs[j].id by {
                assert(v.tabs[i].id == w.tabs[i].id);
                assert(v.tabs[j].id == w.tabs[j].id);
            }
            w.lemma_index_of(k);
        } else {
            let k = v.tabs.len() as int;
            assert(w.tabs[k].id == tab.id);
            assert forall|id: TabId| v.has(id) || id == tab.id implies w.has(id) by {
                if id == tab.id {
                    assert(w.tabs[k].id == id);
                } else {
                    let i = v.index_of(id);
                    assert(w.tabs[i].id == id);
                }
            }
            assert forall|id: TabId| w.has(id) implies v.has(id) || id == tab.id by {
                let i = w.index_of(id);
                if i < k {
                    assert(v.tabs[i].id == id);
                }
            }
            assert forall|i: int, j: int| 0 <= i < j < w.tabs.len() implies #[trigger] w.tabs[i].id
                != #[trigger] w.tabs[j].id by {
                assert(v.tabs[i].id == w.tabs[i].id);
                if j < k {
                    assert(v.tabs[j].id == w.tabs[j].id);
                }
            }
            w.lemma_index_of(k);
        }
    }

    /// To take a tab out of a well-formed registry leaves it well formed,
    /// without that tab and with all others.
    pub proof fn lemma_without_well_formed(v: RegistryView, id: TabId)
        requires
            v.well_formed(),
        ensures
            v.without(id).well_formed(),
            !v.without(id).has(id),
            forall|other: TabId| other != id ==> v.without(id).get(other) == v.get(other),
            v.has(id) ==> v.without(id).tabs.len() == v.tabs.len() - 1,
    {
        let w = v.without(id);
        if v.has(id) {
            let k = v.index_of(id);
            assert forall|i: int| 0 <= i < w.tabs.len() implies #[trigger] w.tabs[i] == v.tabs[if i
                < k {
                i
            } else {
                i + 1
            }] by {}
            assert forall|i: int, j: int| 0 <= i < j < w.tabs.len() implies #[trigger] w.tabs[i].id
                != #[trigger] w.tabs[j].id by {
                let vi = if i < k { i } else { i + 1 };
                let vj = if j < k { j } else { j + 1 };
                assert(w.tabs[i] == v.tabs[vi]);
                assert(w.tabs[j] == v.tabs[vj]);
            }
            assert(!w.has(id)) by {
                if w.has(id) {
                    let i = w.index_of(id);
                    let vi = if i < k { i } else { i + 1 };
                    assert(w.tabs[i] == v.tabs[vi]);
                    v.lemma_index_of(vi);
                }
            }
            assert forall|other: TabId| other != id implies w.get(other) == v.get(other) by {
                if v.has(other) {
                    let vi = v.index_of(other);
                    let i = if vi < k { vi } else { vi - 1 };
                    assert(w.tabs[i] == v.tabs[vi]);
                    assert(w.tabs[i].id == other);
                    w.lemma_index_of(i);
                } else if w.has(other) {
                    let i = w.index_of(other);
                    let vi = if i < k { i } else { i + 1 };
                    assert(w.tabs[i] == v.tabs[vi]);
                    assert(v.tabs[vi].id == other);
                }
            }
            if w.active is Some {
                let a = w.active->0;
                assert(a != id);
                assert(w.get(a) == v.get(a));
            }
        }
    }
}

impl Default for BrowserState {
    fn default() -> (state: Self)
        ensures
            state@ == RegistryView::empty(false),
    {
        BrowserState::new()
    }
}

} // verus!
