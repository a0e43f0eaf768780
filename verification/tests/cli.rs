use pop_upgrade::cli::{
    apt_event_line, checking_line, dismissed_by_timestamp, fetch_updates_step,
    installed_after_release, log_result, notification_message, notification_text,
    refresh_operation, release_check_step, updates_summary, upgrade_goes_ahead, upgrade_panel,
    CheckStep, Output, Paint, RecoveryListener, ReleaseListener, UPGRADE_RESULT_ERROR,
    UPGRADE_RESULT_STR, UPGRADE_RESULT_SUCCESS,
};
use pop_upgrade::client::{
    AptEvent, FetchStatus, Fetched, Flow, Progress, RecoveryEvent, RefreshOp, Signal, Status,
};
use pop_upgrade::release::UpgradeEvent;
use pop_upgrade::eol::{ymd_to_utc, EolStatus};

fn text(out: &Output) -> String {
    out.pieces.iter().map(|p| p.text.as_str()).collect()
}

fn paints(out: &Output) -> Vec<Paint> {
    out.pieces.iter().map(|p| p.paint).collect()
}

use pop_upgrade::cli::{not_lts_notice, release_dismiss_step, DismissStep};
use pop_upgrade::cli::{release_upgrade_requests, upgrade_listen_step, UpgradeRequest, UpgradeStep};
use pop_upgrade::cli::UpgradeRequest::{Finalize, Upgrade};

#[test]
fn result_lines() {
    let ok = log_result(0, UPGRADE_RESULT_STR, UPGRADE_RESULT_SUCCESS, UPGRADE_RESULT_ERROR, "");
    assert_eq!(text(&ok), "Release upgrade status: systems are go for launch: reboot now");
    assert_eq!(paints(&ok), vec![Paint::Info, Paint::Plain, Paint::Primary]);
    assert!(ok.newline);
    let failed = log_result(1, UPGRADE_RESULT_STR, UPGRADE_RESULT_SUCCESS, UPGRADE_RESULT_ERROR, "no space");
    assert_eq!(text(&failed), "Release upgrade status: release upgrade aborted: no space");
    assert_eq!(
        paints(&failed),
        vec![Paint::Info, Paint::Plain, Paint::Error, Paint::Plain, Paint::ErrorDesc]
    );
}

#[test]
fn apt_lines() {
    assert_eq!(
        text(&apt_event_line(&AptEvent::Processing { package: String::from("man-db") })),
        "Processing triggers for man-db"
    );
    assert_eq!(text(&apt_event_line(&AptEvent::Progress { percent: 42 })), "Progress: 42%");
    assert_eq!(
        text(&apt_event_line(&AptEvent::Unpacking {
            package: String::from("vim"),
            version: String::from("2"),
            over: String::from("1"),
        })),
        "Unpacking vim (2) over (1)"
    );
    assert_eq!(
        text(&apt_event_line(&AptEvent::WaitingOnLock)),
        "Waiting on a process holding an apt/dpkg lock file"
    );
    assert_eq!(text(&apt_event_line(&AptEvent::SettingUp { package: String::from("x") })), "Setting up x");
}

#[test]
fn fetch_updates_listener() {
    let (out, flow) = fetch_updates_step(&Signal::PackageFetched(FetchStatus {
        package: String::from("vim"),
        completed: 3,
        total: 10,
    }));
    assert_eq!(out.len(), 1);
    assert_eq!(text(&out[0]), "Fetched (3/10) vim");
    assert!(matches!(flow, Flow::Continue));
    let (out, flow) = fetch_updates_step(&Signal::PackageFetchResult(Status { status: 0, why: String::new() }));
    assert_eq!(text(&out[0]), "Package fetch status: cargo has been loaded successfully");
    assert!(matches!(flow, Flow::Stop));
    let (out, flow) = fetch_updates_step(&Signal::NoConnection);
    assert!(out.is_empty() && matches!(flow, Flow::Continue));
}

#[test]
fn recovery_listener_closes_progress_lines() {
    let mut l = RecoveryListener::new();
    let (out, _) = l.step(&Signal::RecoveryDownloadProgress(Progress { progress: 2048, total: 4096 }));
    assert_eq!(text(&out[0]), "\rFetched 2/4 MiB");
    assert!(!out[0].newline && l.reset);
    let (out, flow) = l.step(&Signal::RecoveryEvent(RecoveryEvent::Verifying));
    assert_eq!(out.len(), 2);
    assert!(out[0].pieces.is_empty() && out[0].newline);
    assert_eq!(text(&out[1]), "Recovery event: verifying checksums of fetched files");
    assert!(matches!(flow, Flow::Continue) && !l.reset);
    let (out, flow) = l.step(&Signal::RecoveryResult(Status { status: 0, why: String::new() }));
    assert_eq!(text(&out[0]), "Recovery upgrade status: recovery partition refueled and ready to go");
    assert!(matches!(flow, Flow::Stop));
    assert!(l.finish().is_empty());
}

#[test]
fn release_listener_retries() {
    let mut l = ReleaseListener::new();
    let (out, flow) = l.step(&Signal::RecoveryDownloadProgress(Progress { progress: 1024, total: 10240 }));
    assert_eq!(text(&out[0]), "\rFetched 1/10 MiB");
    assert!(matches!(flow, Flow::Continue));
    assert_eq!(l.total, 10);
    let (out, _) = l.step(&Signal::RecoveryEvent(RecoveryEvent::Syncing));
    assert_eq!(text(&out[0]), "\rFetched 10/10 MiB");
    assert!(out[0].newline);
    let (out, _) = l.step(&Signal::ReleaseEvent(UpgradeEvent::UpdatingSourceLists));
    assert_eq!(text(&out[0]), "Event: updating the source lists");
    let (out, flow) = l.step(&Signal::NoConnection);
    assert_eq!(out.len(), 2);
    assert_eq!(text(&out[1]), "    Try again? y/N");
    assert!(matches!(flow, Flow::AskRetry));
    assert!(matches!(l.answer_retry(true), Flow::Continue));
    assert!(l.recall);
    let (out, flow) = l.step(&Signal::ReleaseResult(Status { status: 1, why: String::from("offline") }));
    assert!(out.is_empty());
    assert!(matches!(flow, Flow::Fail(ref why) if why == "offline"));
    assert_eq!(l.finish(Err(String::from("offline"))), Ok(true));

    let mut l = ReleaseListener::new();
    let (out, flow) = l.step(&Signal::ReleaseResult(Status { status: 0, why: String::new() }));
    assert_eq!(text(&out[0]), "Release upgrade status: systems are go for launch: reboot now");
    assert!(matches!(flow, Flow::Stop));
    assert_eq!(l.finish(Ok(())), Ok(false));
    assert_eq!(l.finish(Err(String::from("dbus"))), Err(String::from("dbus")));
    assert!(matches!(l.answer_retry(false), Flow::Stop));
}

#[test]
fn notification_texts() {
    assert_eq!(
        notification_text("22.04", "24.04", None),
        (String::from("Upgrade Available"), String::from("Pop!_OS 24.04 is available to download"))
    );
    let (summary, body) = notification_text("22.04", "24.04", Some((EolStatus::Imminent, ymd_to_utc(2025, 4, 30))));
    assert_eq!(summary, "Support for Pop!_OS 22.04 ends April 30, 2025");
    assert_eq!(
        body,
        "This computer will soon stop receiving updates. Upgrade to Pop!_OS 24.04 to keep your computer secure."
    );
    let (summary, body) = notification_text("21.10", "22.04", Some((EolStatus::Exceeded, ymd_to_utc(2022, 7, 14))));
    assert_eq!(summary, "Support for Pop!_OS 21.10 has ended");
    assert_eq!(
        body,
        "Security and application updates are no longer provided for Pop!_OS 21.10. Upgrade to Pop!_OS 22.04 to keep your computer secure."
    );
    assert_eq!(
        notification_message("22.04", "24.04", None),
        (String::from("Upgrade Available"), String::from("Pop!_OS 24.04 is available to download"))
    );
    assert_eq!(
        notification_message("22.04", "24.04", Some("not a version")),
        (String::from("Upgrade Available"), String::from("Pop!_OS 24.04 is available to download"))
    );
}

#[test]
fn install_time_against_release() {
    assert!(installed_after_release("22.04", 2_000_000_000));
    assert!(!installed_after_release("22.04", 1_000_000_000));
    assert!(!installed_after_release("22.05", 2_000_000_000));
    assert!(!installed_after_release("jammy", 2_000_000_000));
    assert!(dismissed_by_timestamp(false, "22.04", Some(2_000_000_000)));
    assert!(!dismissed_by_timestamp(true, "22.04", Some(2_000_000_000)));
    assert!(!dismissed_by_timestamp(false, "22.04", None));
}

#[test]
fn release_subcommand_decisions() {
    assert_eq!(release_check_step(true, -1, true, true), CheckStep::Report);
    assert_eq!(release_check_step(false, -1, false, false), CheckStep::Quiet);
    assert_eq!(release_check_step(false, 2, true, true), CheckStep::Quiet);
    assert_eq!(release_check_step(false, 2, true, false), CheckStep::DismissByTimestamp);
    assert_eq!(release_check_step(false, 0, false, false), CheckStep::Notify);
    assert_eq!(upgrade_panel("18.04"), "info-overview");
    assert_eq!(upgrade_panel("20.04"), "upgrade");
    assert_eq!(checking_line("22.04", "24.04"), "Checking if 22.04 can be upgraded to 24.04");
    assert_eq!(
        updates_summary(&Fetched { updates_available: true, completed: 2, total: 7 }),
        (String::from("fetching updates: 2 of 7 updates fetched"), true)
    );
    assert_eq!(
        updates_summary(&Fetched { updates_available: true, completed: 0, total: 0 }),
        (String::from("no updates available to fetch"), false)
    );
    assert!(upgrade_goes_ahead(true, -1));
    assert!(!upgrade_goes_ahead(false, -1));
    assert!(upgrade_goes_ahead(false, 0));
    assert_eq!(refresh_operation(true), RefreshOp::Disable);
    assert_eq!(refresh_operation(false), RefreshOp::Enable);
}

#[test]
fn only_lts_releases_dismiss() {
    assert_eq!(release_dismiss_step(true), DismissStep::Dismiss);
    assert_eq!(release_dismiss_step(false), DismissStep::NotLts);
    assert_eq!(not_lts_notice(), "Only LTS releases may dismiss notifications");
}

#[test]
fn upgrade_sent_again_while_retrying_then_finalized_once() {
    assert!(matches!(upgrade_listen_step(Ok(true)), UpgradeStep::SendAgain));
    assert!(matches!(upgrade_listen_step(Ok(false)), UpgradeStep::Finalize));
    assert!(matches!(upgrade_listen_step(Err("x".into())), UpgradeStep::Fail(e) if e == "x"));

    let (sent, err) = release_upgrade_requests(&vec![Ok(true), Ok(true), Ok(false), Ok(true)]);
    assert_eq!(sent, vec![Upgrade, Upgrade, Upgrade, Finalize]);
    assert_eq!(err, None);

    let (sent, err) = release_upgrade_requests(&vec![Ok(true), Err("no network".into())]);
    assert_eq!(sent, vec![Upgrade, Upgrade]);
    assert_eq!(err, Some("no network".to_string()));

    let (sent, err) = release_upgrade_requests(&vec![Ok(false)]);
    assert_eq!(sent, vec![Upgrade, Finalize]);
    assert_eq!(err, None);
}
