use rkvm_windows::injector::{DesktopBinding, DESKTOP_REFRESH_INTERVAL_NS};
use rkvm_windows::service::{
    handle_control, is_winlogon_entry, running_status, stopped_status, ControlAnswer, ServiceControlKind,
    ServiceStatusReport,
};

#[test]
fn only_stop_stops_the_service() {
    assert_eq!(handle_control(ServiceControlKind::Stop), (ControlAnswer::NoError, true));
    assert_eq!(handle_control(ServiceControlKind::SessionChange), (ControlAnswer::NoError, false));
    assert_eq!(handle_control(ServiceControlKind::Other), (ControlAnswer::NotImplemented, false));
}

#[test]
fn statuses_reported() {
    assert_eq!(
        running_status(),
        ServiceStatusReport { running: true, accepts_stop: true, accepts_session_change: true, exit_code: 0 }
    );
    assert_eq!(stopped_status(true).exit_code, 0);
    assert_eq!(stopped_status(false).exit_code, 1);
    assert!(!stopped_status(false).running && !stopped_status(true).accepts_stop);
}

#[test]
fn winlogon_is_found_by_name_and_session() {
    assert!(is_winlogon_entry(b"winlogon.exe", Some(1), 1));
    assert!(is_winlogon_entry(b"WinLogon.EXE", Some(2), 2));
    assert!(!is_winlogon_entry(b"winlogon.exe", Some(0), 1));
    assert!(!is_winlogon_entry(b"winlogon.exe", None, 1));
    assert!(!is_winlogon_entry(b"winlogon.ex", Some(1), 1));
    assert!(!is_winlogon_entry(b"wininit.exe", Some(1), 1));
    assert!(!is_winlogon_entry(b"winlogon_exe", Some(1), 1));
}

#[test]
fn desktop_refresh_is_rate_limited_unless_forced() {
    let mut d: DesktopBinding<u32> = DesktopBinding::new();
    assert!(d.begin_refresh(false, 1_000));
    assert!(!d.begin_refresh(false, 1_000 + DESKTOP_REFRESH_INTERVAL_NS - 1));
    assert!(d.begin_refresh(true, 1_001));
    assert!(!d.begin_refresh(false, 500));
    assert!(d.begin_refresh(false, 1_001 + DESKTOP_REFRESH_INTERVAL_NS));
}

#[test]
fn desktop_binding_hands_back_previous_handle() {
    let mut d: DesktopBinding<u32> = DesktopBinding::new();
    assert_eq!(d.bind(7), None);
    assert_eq!(d.bind(8), Some(7));
    assert_eq!(d.unbind(), Some(8));
    assert_eq!(d.unbind(), None);
}
