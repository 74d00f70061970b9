use navigator::application::BrowserState;
use navigator::domain::{Tab, TabId, Timestamp, ValidatedUrl};

fn at(secs: i64) -> Timestamp {
    Timestamp { secs, nanos: 0 }
}

fn tab(bits: u128) -> Tab {
    Tab::new_at(TabId::from_u128(bits), at(100), false)
}

#[test]
fn test_add_and_get_tab() {
    let mut state = BrowserState::new();
    let tab = Tab::new(false);
    let tab_id = tab.id;

    state.add_tab(tab);

    let retrieved = state.get_tab(tab_id);
    assert!(retrieved.is_some());
    assert_eq!(retrieved.unwrap().id, tab_id);
}

#[test]
fn test_remove_tab() {
    let mut state = BrowserState::new();
    let tab = Tab::new(false);
    let tab_id = tab.id;

    state.add_tab(tab);
    assert_eq!(state.tab_count(), 1);

    state.remove_tab(tab_id);
    assert_eq!(state.tab_count(), 0);
}

#[test]
fn test_active_tab() {
    let mut state = BrowserState::new();
    let tab = Tab::new(false);
    let tab_id = tab.id;

    state.add_tab(tab);
    state.set_active_tab(tab_id);

    assert_eq!(state.get_active_tab_id(), Some(tab_id));
}

#[test]
fn test_private_mode() {
    let mut state = BrowserState::new();
    assert!(!state.is_private_mode());

    state.set_private_mode(true);
    assert!(state.is_private_mode());
}

#[test]
fn new_registry_is_empty() {
    let state = BrowserState::new();
    assert_eq!(state.tab_count(), 0);
    assert_eq!(state.get_active_tab_id(), None);
    assert!(state.get_active_tab().is_none());
    assert!(state.get_all_tabs().is_empty());
}

#[test]
fn add_returns_the_identifier_of_the_tab() {
    let mut state = BrowserState::new();
    let id = state.add_tab(tab(7));
    assert_eq!(id, TabId::from_u128(7));
}

#[test]
fn tabs_are_listed_in_the_order_of_their_addition() {
    let mut state = BrowserState::new();
    state.add_tab(tab(3));
    state.add_tab(tab(1));
    state.add_tab(tab(2));
    let ids: Vec<u128> = state.get_all_tabs().iter().map(|t| t.id.as_u128()).collect();
    assert_eq!(ids, vec![3, 1, 2]);
}

#[test]
fn adding_under_a_registered_identifier_replaces_in_place() {
    let mut state = BrowserState::new();
    state.add_tab(tab(1));
    state.add_tab(tab(2));
    let mut again = tab(1);
    again.update_title("Again".to_string());
    state.add_tab(again);
    assert_eq!(state.tab_count(), 2);
    let tabs = state.get_all_tabs();
    assert_eq!(tabs[0].id.as_u128(), 1);
    assert_eq!(tabs[0].title, "Again");
    assert_eq!(tabs[1].id.as_u128(), 2);
}

#[test]
fn get_returns_a_copy() {
    let mut state = BrowserState::new();
    state.add_tab(tab(1));
    let mut copy = state.get_tab(TabId::from_u128(1)).unwrap();
    copy.update_title("Changed".to_string());
    assert_eq!(state.get_tab(TabId::from_u128(1)).unwrap().title, "New Tab");
    state.update_tab(copy);
    assert_eq!(state.get_tab(TabId::from_u128(1)).unwrap().title, "Changed");
}

#[test]
fn update_of_an_unregistered_tab_registers_it() {
    let mut state = BrowserState::new();
    state.add_tab(tab(1));
    state.update_tab(tab(9));
    assert_eq!(state.tab_count(), 2);
    assert_eq!(state.get_all_tabs()[1].id.as_u128(), 9);
}

#[test]
fn remove_returns_the_tab_or_nothing() {
    let mut state = BrowserState::new();
    state.add_tab(tab(1));
    state.add_tab(tab(2));
    assert!(state.remove_tab(TabId::from_u128(5)).is_none());
    assert_eq!(state.tab_count(), 2);
    let removed = state.remove_tab(TabId::from_u128(1)).unwrap();
    assert_eq!(removed.id.as_u128(), 1);
    assert!(state.get_tab(TabId::from_u128(1)).is_none());
    assert_eq!(state.get_all_tabs()[0].id.as_u128(), 2);
}

#[test]
fn set_active_ignores_an_unregistered_identifier() {
    let mut state = BrowserState::new();
    state.add_tab(tab(1));
    state.set_active_tab(TabId::from_u128(2));
    assert_eq!(state.get_active_tab_id(), None);
    state.set_active_tab(TabId::from_u128(1));
    state.set_active_tab(TabId::from_u128(2));
    assert_eq!(state.get_active_tab_id(), Some(TabId::from_u128(1)));
}

#[test]
fn removing_the_active_tab_clears_the_active_reference() {
    let mut state = BrowserState::new();
    state.add_tab(tab(1));
    state.add_tab(tab(2));
    state.set_active_tab(TabId::from_u128(2));
    state.remove_tab(TabId::from_u128(1));
    assert_eq!(state.get_active_tab_id(), Some(TabId::from_u128(2)));
    state.remove_tab(TabId::from_u128(2));
    assert_eq!(state.get_active_tab_id(), None);
    assert!(state.get_active_tab().is_none());
}

#[test]
fn the_active_reference_always_names_a_registered_tab() {
    let mut state = BrowserState::new();
    let ids = [4u128, 9, 4, 2, 7, 9];
    for (step, bits) in ids.iter().enumerate() {
        let id = TabId::from_u128(*bits);
        match step % 3 {
            0 => {
                state.add_tab(tab(*bits));
                state.set_active_tab(id);
            }
            1 => {
                state.add_tab(tab(*bits));
            }
            _ => {
                state.remove_tab(id);
                state.set_active_tab(TabId::from_u128(bits + 1));
            }
        }
        if let Some(active) = state.get_active_tab_id() {
            assert!(state.get_tab(active).is_some());
        }
        }
}

#[test]
fn get_active_tab_is_the_tab_under_the_active_identifier() {
    let mut state = BrowserState::new();
    state.add_tab(tab(1));
    state.add_tab(tab(2));
    state.set_active_tab(TabId::from_u128(2));
    assert_eq!(state.get_active_tab().unwrap().id.as_u128(), 2);
}

#[test]
fn clear_empties_the_registry_and_keeps_the_mode() {
    let mut state = BrowserState::new();
    state.set_private_mode(true);
    state.add_tab(tab(1));
    state.set_active_tab(TabId::from_u128(1));
    state.clear_all_tabs();
    assert_eq!(state.tab_count(), 0);
    assert_eq!(state.get_active_tab_id(), None);
    assert!(state.is_private_mode());
}

#[test]
fn private_mode_leaves_existing_tabs_as_they_are() {
    let mut state = BrowserState::new();
    state.add_tab(tab(1));
    state.set_private_mode(true);
    assert!(!state.get_tab(TabId::from_u128(1)).unwrap().is_private);
    state.set_private_mode(false);
    assert!(!state.is_private_mode());
}

#[test]
fn default_registry_is_empty() {
    let state = BrowserState::default();
    assert_eq!(state.tab_count(), 0);
    assert!(!state.is_private_mode());
}

#[test]
fn a_stored_tab_keeps_its_url() {
    let mut state = BrowserState::new();
    let url = ValidatedUrl::parse("https://a.example").unwrap();
    state.add_tab(Tab::with_url_at(TabId::from_u128(1), at(5), url, false));
    let stored = state.get_tab(TabId::from_u128(1)).unwrap();
    assert_eq!(stored.url.unwrap().as_str(), "https://a.example/");
    assert!(stored.is_loading);
}
