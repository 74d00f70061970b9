use navigator::application::{BrowserState, CloseTabUseCase, NavigateUseCase, OpenTabUseCase};
use navigator::domain::{BrowserError, SecurityService, Tab, TabId, Timestamp, ValidatedUrl};
use navigator::infrastructure::DefaultSecurityService;

fn at(secs: i64) -> Timestamp {
    Timestamp { secs, nanos: 0 }
}

fn id(bits: u128) -> TabId {
    TabId::from_u128(bits)
}

fn open(state: &mut BrowserState, bits: u128) -> TabId {
    OpenTabUseCase::new_at(state, None, id(bits), at(10)).execute(state, Ok(())).unwrap()
}

fn close(state: &mut BrowserState, bits: u128) -> Result<(), BrowserError> {
    CloseTabUseCase::new(state, id(bits))?.execute(state, Ok(()))
}

#[test]
fn test_open_tab_use_case() {
    let mut state = BrowserState::new();

    let use_case = OpenTabUseCase::new(&state, None);
    assert!(use_case.must_save());
    let tab_id = use_case.execute(&mut state, Ok(())).unwrap();

    assert_eq!(state.tab_count(), 1);
    assert_eq!(state.get_active_tab_id(), Some(tab_id));
}

#[test]
fn open_then_open_then_close_the_first() {
    let mut state = BrowserState::new();

    let first = OpenTabUseCase::new(&state, None).execute(&mut state, Ok(())).unwrap();
    assert_eq!(state.tab_count(), 1);
    assert_eq!(state.get_active_tab_id(), Some(first));

    let url = ValidatedUrl::parse("https://a.example").unwrap();
    let second = OpenTabUseCase::new(&state, Some(url)).execute(&mut state, Ok(())).unwrap();
    assert_eq!(state.tab_count(), 2);
    assert_eq!(state.get_active_tab_id(), Some(second));

    CloseTabUseCase::new(&mut state, first).unwrap().execute(&mut state, Ok(())).unwrap();
    assert_eq!(state.tab_count(), 1);
    assert_eq!(state.get_active_tab_id(), Some(second));
    assert_eq!(state.get_all_tabs()[0].id, second);
}

#[test]
fn an_opened_tab_is_as_the_registry_and_the_url_say() {
    let mut state = BrowserState::new();
    let pending = OpenTabUseCase::new_at(&state, None, id(1), at(42));
    let tab = pending.tab();
    assert_eq!(tab.id, id(1));
    assert_eq!(tab.title, "New Tab");
    assert!(tab.url.is_none());
    assert!(!tab.is_loading);
    assert!(!tab.is_private);
    assert_eq!(tab.created_at, at(42));
    assert_eq!(tab.last_accessed, at(42));
    assert!(tab.favicon_url.is_none());
    assert_eq!(pending.execute(&mut state, Ok(())).unwrap(), id(1));

    let url = ValidatedUrl::parse("https://a.example").unwrap();
    let pending = OpenTabUseCase::new_at(&state, Some(url), id(2), at(43));
    assert!(pending.tab().is_loading);
    assert_eq!(pending.tab().url.as_ref().unwrap().as_str(), "https://a.example/");
    pending.execute(&mut state, Ok(())).unwrap();
    assert!(state.get_tab(id(2)).unwrap().is_loading);
}

#[test]
fn a_tab_that_was_not_stored_is_not_registered() {
    let mut state = BrowserState::new();
    open(&mut state, 1);
    let pending = OpenTabUseCase::new_at(&state, None, id(2), at(11));
    match pending.execute(&mut state, Err("disk full".to_string())) {
        Err(BrowserError::PersistenceFailure(report)) => assert_eq!(report, "disk full"),
        other => panic!("unexpected: {:?}", other),
    }
    assert_eq!(state.tab_count(), 1);
    assert_eq!(state.get_active_tab_id(), Some(id(1)));
    assert!(state.get_tab(id(2)).is_none());
}

#[test]
fn a_private_tab_is_never_stored() {
    let mut state = BrowserState::new();
    state.set_private_mode(true);
    let pending = OpenTabUseCase::new_at(&state, None, id(1), at(11));
    assert!(!pending.must_save());
    assert!(pending.tab().is_private);
    let opened = pending.execute(&mut state, Err("not asked".to_string())).unwrap();
    assert_eq!(opened, id(1));
    assert_eq!(state.get_active_tab_id(), Some(id(1)));

    let pending = CloseTabUseCase::new(&mut state, id(1)).unwrap();
    assert!(!pending.must_delete());
    assert_eq!(pending.tab_id(), id(1));
    pending.execute(&mut state, Err("not asked".to_string())).unwrap();
    assert_eq!(state.tab_count(), 0);
}

#[test]
fn open_then_close_restores_count_and_clears_the_active_reference() {
    let mut state = BrowserState::new();
    open(&mut state, 1);
    close(&mut state, 1).unwrap();
    assert_eq!(state.tab_count(), 0);
    assert_eq!(state.get_active_tab_id(), None);

    open(&mut state, 1);
    open(&mut state, 2);
    let before = state.tab_count();
    open(&mut state, 3);
    close(&mut state, 3).unwrap();
    assert_eq!(state.tab_count(), before);
    assert_eq!(state.get_active_tab_id(), Some(id(1)));
}

#[test]
fn closing_an_unregistered_tab_fails() {
    let mut state = BrowserState::new();
    open(&mut state, 1);
    assert!(matches!(CloseTabUseCase::new(&mut state, id(2)), Err(BrowserError::TabNotFound)));
    assert_eq!(state.tab_count(), 1);
    assert_eq!(state.get_active_tab_id(), Some(id(1)));
    close(&mut state, 1).unwrap();
    assert!(matches!(close(&mut state, 1), Err(BrowserError::TabNotFound)));
}

#[test]
fn closing_the_active_tab_activates_the_oldest() {
    let mut state = BrowserState::new();
    open(&mut state, 5);
    open(&mut state, 3);
    open(&mut state, 8);
    assert_eq!(state.get_active_tab_id(), Some(id(8)));
    close(&mut state, 8).unwrap();
    assert_eq!(state.get_active_tab_id(), Some(id(5)));
    close(&mut state, 5).unwrap();
    assert_eq!(state.get_active_tab_id(), Some(id(3)));
}

#[test]
fn closing_another_tab_keeps_the_active_one() {
    let mut state = BrowserState::new();
    open(&mut state, 5);
    open(&mut state, 3);
    close(&mut state, 5).unwrap();
    assert_eq!(state.get_active_tab_id(), Some(id(3)));
}

#[test]
fn a_failed_delete_leaves_the_tab_closed_and_no_tab_active() {
    let mut state = BrowserState::new();
    open(&mut state, 1);
    open(&mut state, 2);
    let pending = CloseTabUseCase::new(&mut state, id(2)).unwrap();
    assert!(pending.must_delete());
    assert_eq!(state.tab_count(), 1);
    match pending.execute(&mut state, Err("locked".to_string())) {
        Err(BrowserError::PersistenceFailure(report)) => assert_eq!(report, "locked"),
        other => panic!("unexpected: {:?}", other),
    }
    assert_eq!(state.tab_count(), 1);
    assert!(state.get_tab(id(2)).is_none());
    assert_eq!(state.get_active_tab_id(), None);
}

#[test]
fn a_tab_activated_during_the_close_stays_active() {
    let mut state = BrowserState::new();
    open(&mut state, 1);
    open(&mut state, 2);
    open(&mut state, 3);
    let pending = CloseTabUseCase::new(&mut state, id(3)).unwrap();
    state.set_active_tab(id(2));
    pending.execute(&mut state, Ok(())).unwrap();
    assert_eq!(state.get_active_tab_id(), Some(id(2)));
}

#[test]
fn navigation_commits_url_title_and_history() {
    let mut state = BrowserState::new();
    let security = DefaultSecurityService::new();
    open(&mut state, 1);

    let nav = NavigateUseCase::new_at(&mut state, &security, id(1), " example.com ", at(20)).unwrap();
    assert_eq!(nav.url().as_str(), "https://example.com/");
    assert!(nav.is_recorded());
    let in_flight = state.get_tab(id(1)).unwrap();
    assert!(in_flight.is_loading);
    assert_eq!(in_flight.url.unwrap().as_str(), "https://example.com/");
    assert_eq!(in_flight.title, "New Tab");
    assert_eq!(in_flight.last_accessed, at(20));
    assert_eq!(in_flight.created_at, at(10));

    let title = nav.execute(&mut state, Ok(())).unwrap().unwrap();
    assert!(state.get_tab(id(1)).unwrap().is_loading);
    let history = title.resolve_at(Ok("Example Domain".to_string()), at(21));
    let entry = history.entry();
    assert_eq!(entry.id, 0);
    assert_eq!(entry.url.as_str(), "https://example.com/");
    assert_eq!(entry.title, "Example Domain");
    assert_eq!(entry.visited_at, at(21));
    assert_eq!(entry.visit_count, 1);
    history.execute(&mut state, Ok(())).unwrap();

    let done = state.get_tab(id(1)).unwrap();
    assert!(!done.is_loading);
    assert_eq!(done.title, "Example Domain");
    assert_eq!(done.url.unwrap().as_str(), "https://example.com/");
    assert!(!done.is_private);
    assert_eq!(state.tab_count(), 1);
}

#[test]
fn a_missing_title_falls_back_to_the_url() {
    let mut state = BrowserState::new();
    let security = DefaultSecurityService::new();
    open(&mut state, 1);
    let nav = NavigateUseCase::new_at(&mut state, &security, id(1), "http://example.com/a", at(20))
        .unwrap();
    let title = nav.execute(&mut state, Ok(())).unwrap().unwrap();
    let history = title.resolve_at(Err("no document".to_string()), at(21));
    assert_eq!(history.entry().title, "http://example.com/a");
    history.execute(&mut state, Ok(())).unwrap();
    assert_eq!(state.get_tab(id(1)).unwrap().title, "http://example.com/a");
}

#[test]
fn navigation_to_a_blocked_host_changes_nothing() {
    let mut state = BrowserState::new();
    let mut security = DefaultSecurityService::new();
    security.add_blocked_domain("badsite.com".to_string());
    open(&mut state, 1);
    let nav = NavigateUseCase::new_at(&mut state, &security, id(1), "example.com", at(20)).unwrap();
    let history = nav.execute(&mut state, Ok(())).unwrap().unwrap().resolve_at(
        Ok("Example".to_string()),
        at(21),
    );
    history.execute(&mut state, Ok(())).unwrap();

    let result = NavigateUseCase::new_at(&mut state, &security, id(1), "badsite.com/x", at(30));
    assert!(matches!(result, Err(BrowserError::Blocked)));
    let tab = state.get_tab(id(1)).unwrap();
    assert_eq!(tab.url.unwrap().as_str(), "https://example.com/");
    assert_eq!(tab.title, "Example");
    assert!(!tab.is_loading);
    assert_eq!(tab.last_accessed, at(20));

    let result = NavigateUseCase::new(&mut state, &security, id(1), "https://malware-example.com");
    assert!(matches!(result, Err(BrowserError::Blocked)));
    assert_eq!(state.get_tab(id(1)).unwrap().title, "Example");
}

#[test]
fn navigation_fails_before_anything_is_written() {
    let mut state = BrowserState::new();
    let security = DefaultSecurityService::new();
    open(&mut state, 1);

    match NavigateUseCase::new_at(&mut state, &security, id(1), "ftp://x", at(20)) {
        Err(BrowserError::UnsupportedScheme(scheme)) => assert_eq!(scheme, "ftp"),
        _ => panic!("unexpected"),
    }
    match NavigateUseCase::new_at(&mut state, &security, id(1), "", at(20)) {
        Err(BrowserError::InvalidUrl(reason)) => assert_eq!(reason, "empty host"),
        _ => panic!("unexpected"),
    }
    assert!(matches!(
        NavigateUseCase::new_at(&mut state, &security, id(2), "example.com", at(20)),
        Err(BrowserError::TabNotFound)
    ));
    let tab = state.get_tab(id(1)).unwrap();
    assert!(tab.url.is_none());
    assert!(!tab.is_loading);
    assert_eq!(tab.last_accessed, at(10));
    assert_eq!(state.tab_count(), 1);
}

#[test]
fn the_checks_of_a_navigation_come_in_order() {
    let mut state = BrowserState::new();
    let security = DefaultSecurityService::new();
    assert!(matches!(
        NavigateUseCase::new_at(&mut state, &security, id(9), "ftp://x", at(20)),
        Err(BrowserError::UnsupportedScheme(_))
    ));
    assert!(matches!(
        NavigateUseCase::new_at(&mut state, &security, id(9), "malware-example.com", at(20)),
        Err(BrowserError::Blocked)
    ));
}

#[test]
fn a_failed_render_leaves_the_tab_loading_the_new_url() {
    let mut state = BrowserState::new();
    let security = DefaultSecurityService::new();
    open(&mut state, 1);
    let nav = NavigateUseCase::new_at(&mut state, &security, id(1), "example.com", at(20)).unwrap();
    match nav.execute(&mut state, Err("timed out".to_string())) {
        Err(BrowserError::RenderFailure(report)) => assert_eq!(report, "timed out"),
        _ => panic!("unexpected"),
    }
    let tab = state.get_tab(id(1)).unwrap();
    assert!(tab.is_loading);
    assert_eq!(tab.url.unwrap().as_str(), "https://example.com/");
    assert_eq!(tab.title, "New Tab");
}

#[test]
fn a_failed_history_write_leaves_the_tab_loading() {
    let mut state = BrowserState::new();
    let security = DefaultSecurityService::new();
    open(&mut state, 1);
    let nav = NavigateUseCase::new_at(&mut state, &security, id(1), "example.com", at(20)).unwrap();
    let history = nav.execute(&mut state, Ok(())).unwrap().unwrap().resolve(Ok("T".to_string()));
    match history.execute(&mut state, Err("locked".to_string())) {
        Err(BrowserError::PersistenceFailure(report)) => assert_eq!(report, "locked"),
        _ => panic!("unexpected"),
    }
    let tab = state.get_tab(id(1)).unwrap();
    assert!(tab.is_loading);
    assert_eq!(tab.title, "New Tab");
}

#[test]
fn a_private_tab_leaves_no_history_and_keeps_its_title() {
    let mut state = BrowserState::new();
    let security = DefaultSecurityService::new();
    state.set_private_mode(true);
    open(&mut state, 1);
    let nav = NavigateUseCase::new_at(&mut state, &security, id(1), "example.com", at(20)).unwrap();
    assert!(!nav.is_recorded());
    assert!(nav.execute(&mut state, Ok(())).unwrap().is_none());
    let tab = state.get_tab(id(1)).unwrap();
    assert!(!tab.is_loading);
    assert!(tab.is_private);
    assert_eq!(tab.title, "New Tab");
    assert_eq!(tab.url.unwrap().as_str(), "https://example.com/");
}

#[test]
fn the_last_write_of_two_navigations_wins() {
    let mut state = BrowserState::new();
    let security = DefaultSecurityService::new();
    open(&mut state, 1);
    let first = NavigateUseCase::new_at(&mut state, &security, id(1), "a.example", at(20)).unwrap();
    let second = NavigateUseCase::new_at(&mut state, &security, id(1), "b.example", at(21)).unwrap();

    let history = first.execute(&mut state, Ok(())).unwrap().unwrap().resolve_at(
        Ok("A".to_string()),
        at(22),
    );
    history.execute(&mut state, Ok(())).unwrap();
    let tab = state.get_tab(id(1)).unwrap();
    assert_eq!(tab.title, "A");
    assert_eq!(tab.url.unwrap().as_str(), "https://a.example/");
    assert!(!tab.is_loading);

    match second.execute(&mut state, Err("reset".to_string())) {
        Err(BrowserError::RenderFailure(_)) => {}
        _ => panic!("unexpected"),
    }
    assert_eq!(state.get_tab(id(1)).unwrap().title, "A");
}

#[test]
fn a_navigation_that_ends_after_its_tab_was_closed_registers_the_tab_again() {
    let mut state = BrowserState::new();
    let security = DefaultSecurityService::new();
    state.set_private_mode(true);
    open(&mut state, 1);
    let nav = NavigateUseCase::new_at(&mut state, &security, id(1), "a.example", at(20)).unwrap();
    close(&mut state, 1).unwrap();
    assert_eq!(state.tab_count(), 0);
    nav.execute(&mut state, Ok(())).unwrap();
    assert_eq!(state.tab_count(), 1);
    assert_eq!(state.get_active_tab_id(), None);
}

#[test]
fn the_instant_of_last_access_never_moves_backwards() {
    let mut state = BrowserState::new();
    let security = DefaultSecurityService::new();
    open(&mut state, 1);
    NavigateUseCase::new_at(&mut state, &security, id(1), "a.example", at(50)).unwrap();
    NavigateUseCase::new_at(&mut state, &security, id(1), "b.example", at(40)).unwrap();
    let tab = state.get_tab(id(1)).unwrap();
    assert_eq!(tab.last_accessed, at(50));
    assert_eq!(tab.url.unwrap().as_str(), "https://b.example/");

    let mut tab = Tab::new_at(id(2), Timestamp { secs: 5, nanos: 7 }, false);
    let url = ValidatedUrl::parse("https://a.example").unwrap();
    tab.update_url_at(url.clone(), Timestamp { secs: 5, nanos: 6 });
    assert_eq!(tab.last_accessed, Timestamp { secs: 5, nanos: 7 });
    tab.update_url_at(url.clone(), Timestamp { secs: 5, nanos: 8 });
    assert_eq!(tab.last_accessed, Timestamp { secs: 5, nanos: 8 });
    tab.update_url(url);
    assert!(Timestamp { secs: 5, nanos: 8 }.is_not_after(&tab.last_accessed));
}

#[test]
fn a_navigation_hands_on_what_its_security_service_refuses() {
    let mut state = BrowserState::new();
    let mut default_service = DefaultSecurityService::new();
    default_service.add_blocked_domain("example.org".to_string());
    let service: &dyn SecurityService = &default_service;
    open(&mut state, 1);

    for tab in [id(1), id(7)] {
        match NavigateUseCase::new_at(&mut state, service, tab, "ftp://example.org", at(20)) {
            Err(BrowserError::UnsupportedScheme(scheme)) => assert_eq!(scheme, "ftp"),
            _ => panic!("unexpected"),
        }
        match NavigateUseCase::new_at(&mut state, service, tab, "https://exa mple.org", at(20)) {
            Err(BrowserError::InvalidUrl(reason)) => assert_eq!(reason, "invalid international domain name"),
            _ => panic!("unexpected"),
        }
        assert!(matches!(
            NavigateUseCase::new_at(&mut state, service, tab, "example.org", at(20)),
            Err(BrowserError::Blocked)
        ));
    }
    assert!(matches!(
        NavigateUseCase::new_at(&mut state, service, id(7), "example.com", at(20)),
        Err(BrowserError::TabNotFound)
    ));
    assert!(state.get_tab(id(1)).unwrap().url.is_none());
    assert!(NavigateUseCase::new_at(&mut state, service, id(1), "example.com", at(20)).is_ok());
}

#[test]
fn admission_looks_at_the_block_before_the_tab() {
    let mut state = BrowserState::new();
    open(&mut state, 1);
    let url = || ValidatedUrl::parse("https://example.com").unwrap();
    assert!(matches!(
        NavigateUseCase::admit_at(&mut state, id(2), url(), true, at(20)),
        Err(BrowserError::Blocked)
    ));
    assert!(matches!(
        NavigateUseCase::admit_at(&mut state, id(2), url(), false, at(20)),
        Err(BrowserError::TabNotFound)
    ));
    assert!(matches!(
        NavigateUseCase::admit_at(&mut state, id(1), url(), true, at(20)),
        Err(BrowserError::Blocked)
    ));
    assert!(state.get_tab(id(1)).unwrap().url.is_none());
    let nav = NavigateUseCase::admit_at(&mut state, id(1), url(), false, at(20)).unwrap();
    assert_eq!(nav.url().as_str(), "https://example.com/");
    assert!(state.get_tab(id(1)).unwrap().is_loading);
}
