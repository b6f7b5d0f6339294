use yula_desktop::{
    check_for_updates, clear_badge, get_system_info, install_update, minimize_to_tray, quit_app,
    set_autostart, set_badge_count, AppState, AutostartChange, DownloadProgress, InstallPlan,
    PendingUpdate, ShellAction, MAIN_WINDOW_NOT_FOUND,
};

fn state(notification_count: u32, is_authenticated: bool) -> AppState {
    AppState { notification_count, is_authenticated }
}

#[test]
fn app_state_starts_with_nothing_unread_and_nobody_signed_in() {
    let state = AppState::default();
    assert_eq!(state.notification_count, 0);
    assert!(!state.is_authenticated);
}

#[test]
fn set_badge_count_then_read_yields_the_count() {
    for count in [0u32, 1, 3, 7, 42, 65_536, u32::MAX - 1, u32::MAX] {
        for before in [0u32, 5, u32::MAX] {
            let mut state = state(before, false);
            assert_eq!(set_badge_count(&mut state, count), Ok(()));
            assert_eq!(state.notification_count, count);
        }
    }
}

#[test]
fn set_badge_count_keeps_the_authentication_flag() {
    let mut signed_in = state(2, true);
    assert_eq!(set_badge_count(&mut signed_in, 9), Ok(()));
    assert!(signed_in.is_authenticated);
    let mut signed_out = state(2, false);
    assert_eq!(set_badge_count(&mut signed_out, 9), Ok(()));
    assert!(!signed_out.is_authenticated);
}

#[test]
fn clear_badge_is_set_badge_count_zero() {
    for before in [0u32, 1, 17, u32::MAX] {
        for flag in [false, true] {
            let mut cleared = state(before, flag);
            let mut zeroed = state(before, flag);
            assert_eq!(clear_badge(&mut cleared), set_badge_count(&mut zeroed, 0));
            assert_eq!(cleared.notification_count, 0);
            assert_eq!(cleared.notification_count, zeroed.notification_count);
            assert_eq!(cleared.is_authenticated, zeroed.is_authenticated);
        }
    }
}

#[test]
fn the_later_of_two_badge_writes_stays() {
    let mut state = state(0, false);
    set_badge_count(&mut state, 3).unwrap();
    set_badge_count(&mut state, 7).unwrap();
    assert_eq!(state.notification_count, 7);
    set_badge_count(&mut state, 3).unwrap();
    assert_eq!(state.notification_count, 3);
}

#[test]
fn badge_writes_of_3_and_7_leave_3_or_7_in_either_order() {
    for before in [0u32, 3, 7, 99] {
        let mut three_then_seven = state(before, true);
        set_badge_count(&mut three_then_seven, 3).unwrap();
        set_badge_count(&mut three_then_seven, 7).unwrap();
        assert_eq!(three_then_seven.notification_count, 7);

        let mut seven_then_three = state(before, true);
        set_badge_count(&mut seven_then_three, 7).unwrap();
        set_badge_count(&mut seven_then_three, 3).unwrap();
        assert_eq!(seven_then_three.notification_count, 3);

        for state in [three_then_seven, seven_then_three] {
            assert!(state.notification_count == 3 || state.notification_count == 7);
            assert!(state.is_authenticated);
        }
    }
}

#[test]
fn check_for_updates_with_none_pending() {
    let info = check_for_updates(Ok(None)).unwrap();
    assert!(!info.available);
    assert_eq!(info.version, None);
    assert_eq!(info.notes, None);
}

#[test]
fn check_for_updates_with_version_and_notes() {
    let pending =
        PendingUpdate { version: "1.2.3".to_string(), body: Some("fix bugs".to_string()) };
    let info = check_for_updates(Ok(Some(pending))).unwrap();
    assert!(info.available);
    assert_eq!(info.version, Some("1.2.3".to_string()));
    assert_eq!(info.notes, Some("fix bugs".to_string()));
}

#[test]
fn check_for_updates_with_version_and_no_notes() {
    let pending = PendingUpdate { version: "2.0.0-rc.1".to_string(), body: None };
    let info = check_for_updates(Ok(Some(pending))).unwrap();
    assert!(info.available);
    assert_eq!(info.version, Some("2.0.0-rc.1".to_string()));
    assert_eq!(info.notes, None);
}

#[test]
fn check_for_updates_passes_the_failure_on() {
    let outcome = check_for_updates(Err("endpoint unreachable".to_string()));
    assert_eq!(outcome.unwrap_err(), "endpoint unreachable");
    let outcome = check_for_updates(Err(String::new()));
    assert_eq!(outcome.unwrap_err(), "");
}

#[test]
fn install_update_downloads_what_is_pending() {
    let pending = PendingUpdate { version: "1.2.3".to_string(), body: None };
    assert_eq!(install_update(Ok(Some(pending))), InstallPlan::DownloadAndInstall);
}

#[test]
fn install_update_with_none_pending_succeeds_at_once() {
    assert_eq!(install_update(Ok(None)), InstallPlan::Finish(Ok(())));
}

#[test]
fn install_update_passes_the_failure_on() {
    assert_eq!(
        install_update(Err("signature mismatch".to_string())),
        InstallPlan::Finish(Err("signature mismatch".to_string()))
    );
}

#[test]
fn install_update_downloads_exactly_when_the_check_says_available() {
    let reports = || {
        vec![
            Ok(None),
            Ok(Some(PendingUpdate { version: "3.1.4".to_string(), body: None })),
            Ok(Some(PendingUpdate { version: "3.1.4".to_string(), body: Some("n".to_string()) })),
            Err("offline".to_string()),
        ]
    };
    for (for_check, for_install) in reports().into_iter().zip(reports()) {
        let available = matches!(check_for_updates(for_check), Ok(info) if info.available);
        let downloads = install_update(for_install) == InstallPlan::DownloadAndInstall;
        assert_eq!(available, downloads);
    }
}

#[test]
fn download_progress_adds_up_the_chunks() {
    let mut progress = DownloadProgress::new();
    assert_eq!(progress.downloaded, 0);
    assert_eq!(progress.content_length, None);
    progress.record(1024, Some(4096));
    assert_eq!(progress, DownloadProgress { downloaded: 1024, content_length: Some(4096) });
    progress.record(0, Some(4096));
    assert_eq!(progress.downloaded, 1024);
    progress.record(3072, None);
    assert_eq!(progress, DownloadProgress { downloaded: 4096, content_length: None });
}

#[test]
fn download_progress_reaches_the_largest_count() {
    let mut progress = DownloadProgress::new();
    progress.record(usize::MAX - 1, None);
    progress.record(1, None);
    assert_eq!(progress.downloaded, usize::MAX);
}

#[test]
fn set_autostart_chooses_the_registry_operation() {
    assert_eq!(set_autostart(true), AutostartChange::Enable);
    assert_eq!(set_autostart(false), AutostartChange::Disable);
}

#[test]
fn minimize_to_tray_without_a_main_window() {
    assert_eq!(minimize_to_tray(None), Err("Main window not found".to_string()));
    assert_eq!(MAIN_WINDOW_NOT_FOUND, "Main window not found");
}

#[test]
fn minimize_to_tray_passes_the_report_on() {
    assert_eq!(minimize_to_tray(Some(Ok(()))), Ok(()));
    assert_eq!(
        minimize_to_tray(Some(Err("window destroyed".to_string()))),
        Err("window destroyed".to_string())
    );
}

#[test]
fn quit_app_exits_with_code_zero() {
    assert_eq!(quit_app(), ShellAction::Exit { code: 0 });
}

#[test]
fn get_system_info_keeps_each_reading() {
    let info = get_system_info("linux", "x86_64", "6.8.0".to_string(), "workstation".to_string());
    assert_eq!(info.platform, "linux");
    assert_eq!(info.arch, "x86_64");
    assert_eq!(info.os_version, "6.8.0");
    assert_eq!(info.hostname, "workstation");
    let empty = get_system_info("", "", String::new(), String::new());
    assert_eq!(empty.platform, "");
    assert_eq!(empty.hostname, "");
}
