use data_display::account::AccountDisplay;
use data_display::data_window::LoadError;
use data_display::device::DeviceDisplay;
use data_display::login::{Login, LoginDisplay};
use data_display::sessions::{Row, SessionDisplay, SessionResponse};
use data_display::timestamp::timestamp_le;
use data_display::view_select::{DisplayType, Panels};

#[test]
fn login_flags_follow_login_and_logout() {
    let mut l = Login::default();
    assert!(!l.logged_in && !l.show_window_sessionhist && !l.show_window_account && !l.show_window_deviceinfo);
    l.login();
    assert!(l.logged_in && l.show_window_sessionhist && l.show_window_account && l.show_window_deviceinfo);
    l.logout();
    assert!(!l.logged_in && !l.show_window_sessionhist && !l.show_window_account && !l.show_window_deviceinfo);
    assert_eq!(l.failed_attempts, 0);
}

#[test]
fn login_display_trims_user_name() {
    let mut d = LoginDisplay::new();
    assert!(!d.get_logged_in());
    assert_eq!(d.username(), "");
    d.login("  alice \t");
    assert!(d.get_logged_in());
    assert_eq!(d.username(), "alice");
    d.logout();
    assert!(!d.get_logged_in());
    assert_eq!(d.username(), "alice");
    d.sign_in(" bob ".to_string());
    assert_eq!(d.username(), " bob ");
}

#[test]
fn account_and_device_start_empty() {
    assert_eq!(AccountDisplay::new().account_id, "");
    assert_eq!(DeviceDisplay::new().account_id, "");
}

fn listing() -> SessionResponse {
    SessionResponse {
        sessions: vec![
            Row { session_id: 42, username: "alice".to_string() },
            Row { session_id: -7, username: "alice".to_string() },
            Row { session_id: 0, username: "alice".to_string() },
        ],
    }
}

#[test]
fn session_list_loads_once_until_stale() {
    let mut s = SessionDisplay::new();
    assert!(s.begin_load());
    assert!(!s.begin_load());
    s.request_new_session();
    assert!(s.begin_load());
    assert!(!s.begin_load());
}

#[test]
fn session_list_applies_success_only() {
    let mut s = SessionDisplay::new();
    assert_eq!(s.apply_sessions(500, Some(listing())), Err(LoadError::Status(500)));
    assert!(s.sessions().is_empty());
    assert_eq!(s.apply_sessions(200, None), Err(LoadError::MissingBody));
    assert!(s.sessions().is_empty());
    assert_eq!(s.apply_sessions(200, Some(listing())), Ok(()));
    assert_eq!(s.sessions().len(), 3);
    assert_eq!(s.sessions()[1].session_id, -7);
}

#[test]
fn viewing_a_session_selects_its_id() {
    let mut s = SessionDisplay::new();
    s.apply_sessions(200, Some(listing())).unwrap();
    assert_eq!(s.current_session(), "");
    assert!(s.view_session(0));
    assert_eq!(s.current_session(), "42");
    assert!(s.view_session(1));
    assert_eq!(s.current_session(), "-7");
    assert!(s.view_session(2));
    assert_eq!(s.current_session(), "0");
    assert!(!s.view_session(3));
    assert_eq!(s.current_session(), "0");
}

#[test]
fn display_type_selects_panels() {
    assert_eq!(DisplayType::All.panels(), Panels { table: true, graph: true, map: true });
    assert_eq!(DisplayType::Table.panels(), Panels { table: true, graph: false, map: false });
    assert_eq!(DisplayType::Graph.panels(), Panels { table: false, graph: true, map: false });
    assert_eq!(DisplayType::MapView.panels(), Panels { table: false, graph: false, map: true });
}

#[test]
fn timestamps_compare_bytewise() {
    assert!(timestamp_le("2025-01-01T00:00:00.000", "2025-01-01T00:00:00.001"));
    assert!(!timestamp_le("2025-01-02T00:00:00.000", "2025-01-01T23:59:59.999"));
    assert!(timestamp_le("2025-01-01", "2025-01-01"));
    assert!(timestamp_le("2025-01-01", "2025-01-01T00"));
    assert!(!timestamp_le("2025-01-01T00", "2025-01-01"));
    assert!(timestamp_le("", ""));
}
