use pop_upgrade::client::{
    AptEvent, DismissEvent, FetchStatus, Flow, Progress, RecoveryEvent, RecoveryVersion, ReleaseInfo, Signal, Status,
};
use pop_upgrade::codename::Codename;
use pop_upgrade::eol::{EolDate, EolStatus};
use pop_upgrade::release::UpgradeEvent;
use pop_upgrade::widget::{
    dismiss_event, download_step, progress_percent, ProgressView, error_message, error_response, eol_notice, recovery_step,
    status_outcome, update_step, ProgressEvent, StatusOutcome, WidgetEvent, is_dismissed, recovery_status, recovery_urgent,
    scan, scan_checks_release, updates_progress, EolNotice, Event, RecoveryStatus, ScanEvent,
    State, StatusError, UiErrorKind, UpgradeAction, UpgradeClick, UpgradeRow, UpgradeText,
};
use pop_upgrade::version::Version;

fn info(build: i16, urgent: Option<u16>) -> ReleaseInfo {
    ReleaseInfo {
        current: String::from("22.04"),
        next: String::from("24.04"),
        build,
        urgent,
        is_lts: true,
    }
}

fn recovery(version: &str, build: i16) -> Option<RecoveryVersion> {
    Some(RecoveryVersion { version: String::from(version), build })
}

use pop_upgrade::widget::{download_plan, DownloadNotice};
use pop_upgrade::widget::{scan_notices, ScanNotice};

#[test]
fn event_codes() {
    assert_eq!(Event::NotUpgrading.to_u8(), 0);
    assert_eq!(Event::Upgrading.to_u8(), 1);
    assert_eq!(Event::UpgradeReady.to_u8(), 2);
}

#[test]
fn progress_percentages() {
    let mut state = State::new();
    assert_eq!(state.calculate_fetching_progress(40, 100), 10);
    assert_eq!(state.calculate_fetching_progress(100, 100), 25);
    assert_eq!(state.on_upgrade_event(UpgradeEvent::UpgradingPackages), Some(25));
    assert!(!state.fetching_release);
    assert_eq!(state.on_upgrade_event(UpgradeEvent::UpdatingSourceLists), Some(50));
    assert!(state.fetching_release);
    assert_eq!(state.calculate_fetching_progress(40, 100), 70);
    assert_eq!(state.calculate_fetching_progress(100, 100), 100);
    assert_eq!(state.on_upgrade_event(UpgradeEvent::Success), None);
    assert_eq!(updates_progress(0), 25);
    assert_eq!(updates_progress(100), 50);
}

#[test]
fn scan_without_permission() {
    assert!(matches!(
        scan(false, false, false, false, None, None, true),
        ScanEvent::PermissionDenied
    ));
}

#[test]
fn scan_finds_an_upgrade() {
    let found = match scan(true, false, false, false, Some(Ok(info(3, None))), recovery("22.04", 3), true) {
        ScanEvent::Found(found) => found,
        ScanEvent::PermissionDenied => panic!("admin"),
    };
    assert!(matches!(found.upgrade_text, UpgradeText::Available(ref v) if v == "24.04"));
    assert_eq!(found.current.as_deref(), Some("22.04"));
    assert!(found.upgrade.is_some());
    assert!(!found.urgent && !found.status_failed && !found.is_current && found.is_lts);

    let found = match scan(true, true, false, false, Some(Ok(info(3, None))), None, true) {
        ScanEvent::Found(found) => found,
        ScanEvent::PermissionDenied => panic!("admin"),
    };
    assert!(matches!(found.upgrade_text, UpgradeText::Ready(ref v) if v == "24.04"));
}

#[test]
fn scan_build_statuses() {
    let found = |build: i16| match scan(true, false, false, false, Some(Ok(info(build, None))), None, false) {
        ScanEvent::Found(found) => found,
        ScanEvent::PermissionDenied => panic!("admin"),
    };
    let current = found(-2);
    assert!(current.is_current && !current.status_failed);
    assert!(matches!(current.upgrade_text, UpgradeText::ReleaseCurrent));
    assert!(current.upgrade.is_none());
    assert!(matches!(found(-1).upgrade_text, UpgradeText::BuildStatusError));
    assert!(matches!(found(-3).upgrade_text, UpgradeText::ConnectionError));
    assert!(found(-3).status_failed);
    assert!(matches!(found(-4).upgrade_text, UpgradeText::ReleaseCurrent));
    assert!(matches!(found(-9).upgrade_text, UpgradeText::UnknownStatus));

    let devel = match scan(true, false, false, true, Some(Ok(info(-1, None))), None, false) {
        ScanEvent::Found(found) => found,
        ScanEvent::PermissionDenied => panic!("admin"),
    };
    assert!(matches!(devel.upgrade_text, UpgradeText::Available(_)));
}

#[test]
fn scan_failures_and_downloads() {
    let failed = match scan(true, false, false, false, Some(Err(())), None, false) {
        ScanEvent::Found(found) => found,
        ScanEvent::PermissionDenied => panic!("admin"),
    };
    assert!(failed.status_failed && matches!(failed.upgrade_text, UpgradeText::UpdateCheckError));
    let downloading = match scan(true, false, true, false, None, None, true) {
        ScanEvent::Found(found) => found,
        ScanEvent::PermissionDenied => panic!("admin"),
    };
    assert!(matches!(downloading.upgrade_text, UpgradeText::Downloading));
    assert!(downloading.upgrading_recovery && downloading.current.is_none());
    assert!(scan_checks_release(true, true));
    assert!(!scan_checks_release(false, true));
}

#[test]
fn recovery_urgency() {
    assert!(!recovery_urgent(&info(3, None), &recovery("22.04", 3)));
    assert!(recovery_urgent(&info(3, None), &recovery("21.10", 3)));
    assert!(recovery_urgent(&info(3, Some(10)), &recovery("22.04", 5)));
    assert!(!recovery_urgent(&info(3, Some(10)), &recovery("22.04", 12)));
    assert!(recovery_urgent(&info(3, Some(1)), &recovery("22.04", -1)));
    assert!(recovery_urgent(&info(3, Some(1)), &None));
    assert!(!recovery_urgent(&info(3, Some(0)), &None));
}

#[test]
fn scan_found_drives_the_view() {
    let mut state = State::new();
    let found = match scan(true, false, false, false, Some(Ok(info(3, None))), recovery("21.10", 3), true) {
        ScanEvent::Found(found) => found,
        ScanEvent::PermissionDenied => panic!("admin"),
    };
    let view = state.on_scan_found(found);
    match view.upgrade {
        UpgradeRow::Offer { action, dismissible } => {
            assert_eq!(action, Some(UpgradeAction::Download));
            assert_eq!(dismissible.as_deref(), Some("24.04"));
        }
        UpgradeRow::Disabled(_) => panic!("an upgrade was found"),
    }
    assert_eq!(view.recovery, Some((RecoveryStatus::UpdateFound, false)));
    assert!(state.upgrade_found && state.recovery_urgent && state.refresh_found);
    assert_eq!(state.upgrading_from, "22.04");
    assert_eq!(state.current, "22.04");
    assert!(matches!(state.on_upgrade_clicked(), UpgradeClick::Download(ref i) if i.next == "24.04"));

    assert_eq!(state.on_download_complete(), Event::UpgradeReady);
    assert!(matches!(state.on_upgrade_clicked(), UpgradeClick::ConfirmUpgrade));
    assert_eq!(state.on_cancelled(), Event::NotUpgrading);
    assert!(!state.upgrade_downloaded);

    let reset = state.reset();
    assert!(reset.recovery_button && reset.refresh_button && reset.recovery_section && reset.upgrade_button);
    assert!(!state.fetching_release);
}

#[test]
fn current_release_disables_the_row() {
    let mut state = State::new();
    let found = match scan(true, false, false, false, Some(Ok(info(-2, None))), None, false) {
        ScanEvent::Found(found) => found,
        ScanEvent::PermissionDenied => panic!("admin"),
    };
    let view = state.on_scan_found(found);
    assert!(matches!(view.upgrade, UpgradeRow::Disabled(true)));
    assert!(view.recovery.is_none());
    assert!(matches!(state.on_upgrade_clicked(), UpgradeClick::Nothing));
}

#[test]
fn recovery_statuses() {
    assert_eq!(recovery_status(true, true, true), (RecoveryStatus::UpdateFound, false));
    assert_eq!(recovery_status(false, true, true), (RecoveryStatus::Upgrading, true));
    assert_eq!(recovery_status(false, true, false), (RecoveryStatus::CheckFailed, true));
    assert_eq!(recovery_status(false, false, false), (RecoveryStatus::Current, true));
}

#[test]
fn dismissal_and_errors() {
    assert!(is_dismissed("24.04", &Some(String::from("24.04"))));
    assert!(!is_dismissed("24.04", &Some(String::from("22.04"))));
    assert!(!is_dismissed("24.04", &None));
    assert_eq!(
        error_message(UiErrorKind::Upgrade.message(), &vec![String::from("client error"), String::from("no route")]),
        "failed to upgrade OS: client error: no route"
    );
    assert_eq!(error_message("x", &Vec::new()), "x");
    let r = error_response(UiErrorKind::Dismiss(true));
    assert_eq!(r.set_dismissed, Some(false));
    assert!(!r.reset && !r.recovery_failed);
    let r = error_response(UiErrorKind::Recovery);
    assert!(r.reset && r.recovery_failed && r.set_dismissed.is_none());
    assert_eq!(StatusError(String::from("failed")).message(), "failed");
}

#[test]
fn eol_notices() {
    let eol = EolDate::from_codename(Codename::Impish);
    assert!(eol_notice(&eol, EolStatus::Supported).is_none());
    match eol_notice(&eol, EolStatus::Exceeded) {
        Some(EolNotice::Exceeded { current, next }) => {
            assert_eq!(current, Version { major: 21, minor: 10, patch: 0 });
            assert_eq!(next, Version { major: 22, minor: 4, patch: 0 });
        }
        _ => panic!("exceeded"),
    }
    match eol_notice(&eol, EolStatus::Imminent) {
        Some(EolNotice::Imminent { ymd, .. }) => assert_eq!(ymd, eol.ymd),
        _ => panic!("imminent"),
    }
}

#[test]
fn download_listener() {
    let (e, f) = download_step(&Signal::PackageFetched(FetchStatus { package: String::from("a"), completed: 1, total: 4 }));
    assert_eq!(e, Some(WidgetEvent::Progress(ProgressEvent::Fetching(1, 4))));
    assert!(matches!(f, Flow::Continue));
    let (e, _) = download_step(&Signal::PackageUpgrade(Some(AptEvent::Progress { percent: 30 })));
    assert_eq!(e, Some(WidgetEvent::Progress(ProgressEvent::Updates(30))));
    let (e, _) = download_step(&Signal::PackageUpgrade(Some(AptEvent::WaitingOnLock)));
    assert_eq!(e, Some(WidgetEvent::WaitingOnLock));
    let (e, _) = download_step(&Signal::PackageUpgrade(Some(AptEvent::SettingUp { package: String::from("x") })));
    assert_eq!(e, None);
    let (e, _) = download_step(&Signal::RecoveryResult(Status { status: 3, why: String::new() }));
    assert_eq!(e, Some(WidgetEvent::RecoveryFailed));
    let (e, _) = download_step(&Signal::ReleaseEvent(UpgradeEvent::Success));
    assert_eq!(e, Some(WidgetEvent::Upgrade(UpgradeEvent::Success)));
    let (e, f) = download_step(&Signal::ReleaseResult(Status { status: 1, why: String::from("broken") }));
    assert_eq!(e, None);
    assert!(matches!(f, Flow::Fail(ref w) if w == "broken"));
    let (_, f) = download_step(&Signal::ReleaseResult(Status { status: 0, why: String::new() }));
    assert!(matches!(f, Flow::Stop));
}

#[test]
fn update_and_recovery_listeners() {
    let (_, f) = update_step(&Signal::PackageFetchResult(Status { status: 2, why: String::from("lock") }));
    assert!(matches!(f, Flow::Fail(ref w) if w == "lock"));
    let (_, f) = update_step(&Signal::PackageFetchResult(Status { status: 0, why: String::new() }));
    assert!(matches!(f, Flow::Stop));
    let (e, f) = update_step(&Signal::RecoveryEvent(RecoveryEvent::Syncing));
    assert_eq!(e, None);
    assert!(matches!(f, Flow::Continue));
    let (e, _) = recovery_step(&Signal::RecoveryDownloadProgress(Progress { progress: 5, total: 9 }));
    assert_eq!(e, Some(WidgetEvent::Progress(ProgressEvent::Recovery(5, 9))));
    let (e, _) = recovery_step(&Signal::RecoveryEvent(RecoveryEvent::Syncing));
    assert_eq!(e, Some(WidgetEvent::Recovery(RecoveryEvent::Syncing)));
    let (_, f) = recovery_step(&Signal::RecoveryResult(Status { status: 0, why: String::new() }));
    assert!(matches!(f, Flow::Stop));
    assert!(matches!(status_outcome(&Status { status: 0, why: String::new() }), StatusOutcome::Completed));
    assert!(matches!(
        status_outcome(&Status { status: 1, why: String::from("x") }),
        StatusOutcome::Failed(ref e) if e.0 == "x"
    ));
    assert_eq!(dismiss_event(true), DismissEvent::ByUser);
    assert_eq!(dismiss_event(false), DismissEvent::Unset);
}

#[test]
fn download_initiated_records_the_release() {
    let mut state = State::new();
    state.on_download_initiated(String::from("24.04"));
    assert_eq!(state.upgrading_to, "24.04");
}

#[test]
fn progress_bar_percentages() {
    assert_eq!(progress_percent(512, 1024), 50);
    assert_eq!(progress_percent(0, 7), 0);
    assert_eq!(progress_percent(7, 7), 100);
}

#[test]
fn progress_views() {
    let mut state = State::new();
    assert_eq!(state.progress_view(ProgressEvent::Fetching(40, 100)), ProgressView::Upgrade(10));
    assert_eq!(state.progress_view(ProgressEvent::Updates(100)), ProgressView::Upgrade(50));
    assert_eq!(
        state.progress_view(ProgressEvent::Recovery(2048, 4096)),
        ProgressView::Recovery { fetched: 2, total: 4, percent: 50 }
    );
    state.on_upgrade_event(UpgradeEvent::UpdatingSourceLists);
    assert_eq!(state.progress_view(ProgressEvent::Fetching(100, 100)), ProgressView::Upgrade(100));
}

#[test]
fn download_plan_sequences() {
    let (sent, requested) = download_plan(false, "22.04".into(), Ok(()), Some(Ok(())));
    assert!(sent.is_empty());
    assert!(!requested);

    let (sent, requested) = download_plan(true, "22.04".into(), Err("refused".into()), None);
    assert!(requested);
    assert_eq!(sent.len(), 2);
    assert!(matches!(&sent[0], DownloadNotice::Initiated(n) if n == "22.04"));
    assert!(matches!(&sent[1], DownloadNotice::UpgradeError(e) if e == "refused"));

    let (sent, _) = download_plan(true, "22.04".into(), Ok(()), Some(Ok(())));
    assert_eq!(sent.len(), 2);
    assert!(matches!(sent[1], DownloadNotice::Completed));

    let (sent, _) = download_plan(true, "22.04".into(), Ok(()), Some(Err("failed".into())));
    assert!(matches!(&sent[1], DownloadNotice::UpgradeError(e) if e == "failed"));
}

#[test]
fn scan_sends_scanning_first() {
    let (sent, asks) = scan_notices(false, false, false, false, None, None, true);
    assert!(!asks);
    assert_eq!(sent.len(), 2);
    assert!(matches!(sent[0], ScanNotice::Scanning));
    assert!(matches!(sent[1], ScanNotice::Completed(ScanEvent::PermissionDenied)));

    let (sent, asks) = scan_notices(true, false, false, false, None, None, true);
    assert!(asks);
    assert!(matches!(sent[0], ScanNotice::Scanning));
    assert!(matches!(sent[1], ScanNotice::Completed(ScanEvent::Found(_))));
}
