use codectrl_gui::app_state::{App, Flags, DEFAULT_PORT, DEFAULT_SPLIT_SIZE};
use codectrl_gui::relay::{
    load_themes_step, refresh_errors_step, PauseState, RelayAction, ThemeEvent, ThemeState,
};
use codectrl_gui::session::ServerDetails;
use codectrl_gui::views::{Followup, SearchMessage, Searching, ViewState};

#[test]
fn default_flags_point_at_loopback() {
    let flags = Flags::default();
    assert_eq!(flags.host, "127.0.0.1");
    assert_eq!(flags.port, 3002);
    assert_eq!(DEFAULT_PORT, 3002);
}

#[test]
fn relay_alternates_publish_and_sleep() {
    let (a, s) = refresh_errors_step(PauseState::InProgress);
    assert_eq!(a, RelayAction::ShowServerErrors);
    assert_eq!(s, PauseState::Paused);
    let (a, s) = refresh_errors_step(s);
    assert_eq!(a, RelayAction::Sleep);
    assert_eq!(s, PauseState::InProgress);
}

#[test]
fn themes_load_then_end() {
    let s: ThemeState<u8, String> = ThemeState::Started(7);
    let (e, s) = load_themes_step(s, Some(Ok(())));
    assert!(matches!(e, ThemeEvent::NoOp));
    let (e, s) = load_themes_step(s, None);
    assert!(matches!(e, ThemeEvent::ThemesLoaded(7)));
    let (e, s) = load_themes_step(s, None);
    assert!(matches!(e, ThemeEvent::NoOp));
    assert!(matches!(s, ThemeState::Ended));
}

#[test]
fn theme_failure_is_reported_once() {
    let s: ThemeState<u8, String> = ThemeState::Started(7);
    let (_, s) = load_themes_step(s, Some(Err("bad".to_string())));
    let (e, s) = load_themes_step(s, None);
    match e {
        ThemeEvent::LoadFailed(x) => assert_eq!(x, "bad"),
        _ => panic!("failure not reported"),
    }
    assert!(matches!(s, ThemeState::Ended));
}

#[test]
fn filter_text_picks_view() {
    let mut s = Searching::default();
    assert_eq!(s.title(), "Searching logs...");
    match s.update(SearchMessage::FilterTextChanged("err".to_string())) {
        Some(Followup::UpdateViewState(v)) => assert_eq!(v, ViewState::Searching),
        _ => panic!("no view change"),
    }
    assert_eq!(s.filter, "err");
    match s.update(SearchMessage::ClearFilterText) {
        Some(Followup::FilterTextChanged(t)) => {
            assert!(t.is_empty());
            match s.update(SearchMessage::FilterTextChanged(t)) {
                Some(Followup::UpdateViewState(v)) => assert_eq!(v, ViewState::Main),
                _ => panic!("no view change"),
            }
        },
        _ => panic!("no follow-up"),
    }
    assert!(s.update(SearchMessage::FilterCaseSensitivityChanged(true)).is_none());
    assert!(s.update(SearchMessage::FilterRegexChanged(true)).is_none());
    assert!(s.case_sensitive && s.regex_sensitive);
    assert_eq!(s.filter, "");
}

#[test]
fn app_starts_with_flags() {
    let app = App::new_no_server(Flags { host: "10.0.0.2".to_string(), port: 9 }, 500);
    assert_eq!(app.host(), "10.0.0.2");
    assert_eq!(app.port(), 9);
    assert_eq!(app.uptime(), 0);
    assert_eq!(app.split_size(), Some(DEFAULT_SPLIT_SIZE));
    assert_eq!(app.split_size(), Some(208));
    assert_eq!(app.view_state(), ViewState::Main);
    assert_eq!(app.title(), "CodeCTRL");
}

#[test]
fn details_refresh_after_one_second() {
    let mut app = App::new_no_server(Flags::default(), 1000);
    assert!(!app.details_stale(1999));
    assert!(app.details_stale(2000));
    assert!(!app.details_stale(10));
    app.set_connection_details(
        Some(ServerDetails { host: "192.168.0.4".to_string(), port: 3003, uptime: 42 }),
        5000,
    );
    assert_eq!(app.host(), "192.168.0.4");
    assert_eq!(app.port(), 3003);
    assert_eq!(app.uptime(), 42);
    assert!(!app.details_stale(5999));
    assert!(app.details_stale(6000));
    app.set_connection_details(None, 9000);
    assert_eq!(app.uptime(), 42);
    assert!(app.details_stale(6000));
}

#[test]
fn server_errors_drain_oldest_first() {
    let mut app = App::new_no_server(Flags::default(), 0);
    app.add_server_error(Some("first".to_string()));
    app.add_server_error(None);
    app.add_server_error(Some("second".to_string()));
    assert_eq!(app.take_server_errors(), vec!["first".to_string(), "second".to_string()]);
    assert!(app.take_server_errors().is_empty());
}

#[test]
fn layout_messages_change_layout() {
    let mut app = App::new_no_server(Flags::default(), 0);
    app.split_resize(300);
    assert_eq!(app.split_size(), Some(300));
    app.update_view_state(ViewState::Searching);
    assert_eq!(app.view_state(), ViewState::Searching);
    app.server_started("0.0.0.0".to_string(), 4000);
    assert_eq!(app.host(), "0.0.0.0");
    assert_eq!(app.port(), 4000);
    match app.update_search(SearchMessage::FilterTextChanged("x".to_string())) {
        Some(Followup::UpdateViewState(v)) => assert_eq!(v, ViewState::Searching),
        _ => panic!("no view change"),
    }
    assert_eq!(app.searching_view().filter, "x");
}

#[test]
fn default_app_uses_default_flags() {
    let app = App::default();
    assert_eq!(app.host(), "127.0.0.1");
    assert_eq!(app.port(), 3002);
    assert_eq!(app.uptime(), 0);
    assert!(!app.details_stale(999));
    assert!(app.details_stale(1000));
}
