//! The decisions of the desktop widget that offers release upgrades: what a scan found, how
//! progress is shown, and how the widget's state follows the daemon's events. The widget
//! toolkit itself draws what these functions decide.

use vstd::prelude::*;

use crate::client::{AptEvent, DismissEvent, Flow, RecoveryEvent, RecoveryVersion, ReleaseInfo, Signal, Status};
use crate::eol::{EolDate, EolStatus};
use crate::release::UpgradeEvent;
use crate::version::{spec_next_release, Version};
use crate::text::{chars_eq, chars_of};

verus! {

/// The row of the recovery partition in the recovery section.
pub const RECOVERY_PARTITION: usize = 0;

/// The row of the refresh option in the recovery section.
pub const REFRESH_OS: usize = 1;

/// What the widget reports to its host through the event callback.
#[derive(Clone, Copy, Debug, PartialEq, Eq, Structural)]
pub enum Event {
    NotUpgrading,
    Upgrading,
    UpgradeReady,
}

impl Event {
    pub open spec fn code(self) -> u8 {
        match self {
            Event::NotUpgrading => 0,
            Event::Upgrading => 1,
            Event::UpgradeReady => 2,
        }
    }

    /// The number by which the host knows the event.
    pub fn to_u8(self) -> (r: u8)
        ensures
            r == self.code(),
    {
        match self {
            Event::NotUpgrading => 0,
            Event::Upgrading => 1,
            Event::UpgradeReady => 2,
        }
    }
}

/// A process in the background has begun.
#[derive(Clone, Debug)]
pub enum InitiatedEvent {
    /// The download of the named release began.
    Download(String),
    Recovery,
    Refresh,
    Scanning,
}

/// Progress of a process in the background.
#[derive(Clone, Copy, Debug, PartialEq, Eq, Structural)]
pub enum ProgressEvent {
    /// Packages fetched, of a total.
    Fetching(u64, u64),
    /// Bytes of the recovery image fetched, of a total.
    Recovery(u64, u64),
    /// Percent of the package upgrade done.
    Updates(u8),
}

/// A failed status that the daemon reported, with its description.
#[derive(Clone, Debug)]
pub struct StatusError(pub String);

impl StatusError {
    /// The text of the error: the daemon's description.
    pub fn message(&self) -> (r: String)
        ensures
            r@ == self.0@,
    {
        self.0.clone()
    }
}

/// The percentage shown while packages are fetched: the release download fills the second
/// half of the bar, the updates before it the first quarter.
pub open spec fn spec_fetching_progress(fetching_release: bool, progress: nat, total: nat) -> nat {
    let part = if fetching_release {
        progress / 2
    } else {
        progress / 4
    };
    let percent = part * 100 / total;
    if fetching_release {
        percent + 50
    } else {
        percent
    }
}

/// The percentage shown while packages are installed: a quarter of the installation's
/// percentage, after the first quarter.
pub fn updates_progress(percent: u8) -> (r: u8)
    ensures
        r == percent / 4 + 25,
{
    percent / 4 + 25
}

/// The widget's own record of what it found and what it is doing.
#[derive(Clone, Debug)]
pub struct State {
    pub fetching_release: bool,
    pub refresh_found: bool,
    pub upgrade_downloaded: bool,
    pub upgrade_found: bool,
    pub recovery_urgent: bool,
    pub upgrade_label: Option<UpgradeText>,
    pub upgrading_from: String,
    pub upgrading_to: String,
    pub current: String,
    pub upgrade_version: Option<ReleaseInfo>,
}

impl State {
    /// The state before the first scan.
    pub fn new() -> (s: State)
        ensures
            !s.fetching_release,
            !s.refresh_found,
            !s.upgrade_downloaded,
            !s.upgrade_found,
            !s.recovery_urgent,
            s.upgrade_label is None,
            s.upgrading_from@.len() == 0,
            s.upgrading_to@.len() == 0,
            s.current@.len() == 0,
            s.upgrade_version is None,
    {
        State {
            fetching_release: false,
            refresh_found: false,
            upgrade_downloaded: false,
            upgrade_found: false,
            recovery_urgent: false,
            upgrade_label: None,
            upgrading_from: String::new(),
            upgrading_to: String::new(),
            current: String::new(),
            upgrade_version: None,
        }
    }

    /// The percentage shown when `progress` of `total` packages were fetched.
    pub fn calculate_fetching_progress(&self, progress: u64, total: u64) -> (r: u64)
        requires
            total > 0,
            (if self.fetching_release {
                progress / 2
            } else {
                progress / 4
            }) * 100 <= u64::MAX,
            spec_fetching_progress(self.fetching_release, progress as nat, total as nat)
                <= u64::MAX,
        ensures
            r == spec_fetching_progress(self.fetching_release, progress as nat, total as nat),
    {
        let part = if self.fetching_release {
            progress / 2
        } else {
            progress / 4
        };
        let percent = part * 100 / total;
        if self.fetching_release {
            percent + 50
        } else {
            percent
        }
    }

    /// A release download began: remembers the release it goes to.
    pub fn on_download_initiated(&mut self, version: String)
        ensures
            *final(self) == (State { upgrading_to: version, ..*old(self) }),
    {
        self.upgrading_to = version;
    }

    /// An event of the release upgrade: the percentage to show, if the event sets one.
    /// Once the source lists are updated, the release itself is being fetched.
    pub fn on_upgrade_event(&mut self, event: UpgradeEvent) -> (r: Option<u8>)
        ensures
            event == UpgradeEvent::UpgradingPackages ==> r == Some(25u8) && *final(self)
                == *old(self),
            event == UpgradeEvent::UpdatingSourceLists ==> r == Some(50u8)
                && final(self).fetching_release && *final(self) == (State {
                fetching_release: true,
                ..*old(self)
            }),
            event != UpgradeEvent::UpgradingPackages && event != UpgradeEvent::UpdatingSourceLists
                ==> r is None && *final(self) == *old(self),
    {
        match event {
            UpgradeEvent::UpgradingPackages => Some(25),
            UpgradeEvent::UpdatingSourceLists => {
                self.fetching_release = true;
                Some(50)
            },
            _ => None,
        }
    }

    /// The upgrade was cancelled: the download is no longer ready, and the host hears that
    /// nothing is being upgraded.
    pub fn on_cancelled(&mut self) -> (e: Event)
        ensures
            e == Event::NotUpgrading,
            *final(self) == (State { upgrade_downloaded: false, ..*old(self) }),
    {
        self.upgrade_downloaded = false;
        Event::NotUpgrading
    }

    /// The release was downloaded: the host hears that the upgrade is ready.
    pub fn on_download_complete(&mut self) -> (e: Event)
        ensures
            e == Event::UpgradeReady,
            *final(self) == (State { upgrade_downloaded: true, ..*old(self) }),
    {
        self.upgrade_downloaded = true;
        Event::UpgradeReady
    }
}

/// What the upgrade row says after a scan.
#[derive(Clone, Debug)]
pub enum UpgradeText {
    /// A release upgrade is being downloaded.
    Downloading,
    /// The named release is downloaded and ready to be installed.
    Ready(String),
    /// The named release is available.
    Available(String),
    /// The build server could not say whether the next release is ready.
    BuildStatusError,
    /// The system runs the most current release.
    ReleaseCurrent,
    /// The server could not be reached.
    ConnectionError,
    /// The daemon answered with a status that is not known.
    UnknownStatus,
    /// The daemon could not check for a new release.
    UpdateCheckError,
}

/// What a scan for a new release found.
#[derive(Clone, Debug)]
pub struct ScanFound {
    pub is_current: bool,
    pub is_lts: bool,
    pub refresh: bool,
    pub status_failed: bool,
    pub reboot_ready: bool,
    pub upgrading_recovery: bool,
    pub urgent: bool,
    pub current: Option<String>,
    pub upgrade_text: UpgradeText,
    pub upgrade: Option<ReleaseInfo>,
}

/// The outcome of a scan.
#[derive(Clone, Debug)]
pub enum ScanEvent {
    /// The user may not administer the system.
    PermissionDenied,
    Found(ScanFound),
}

/// Whether the scan asks the daemon for the next release: not while a download that is not
/// yet ready is in progress.
pub fn scan_checks_release(reboot_ready: bool, upgrade_in_progress: bool) -> (r: bool)
    ensures
        r == (reboot_ready || !upgrade_in_progress),
{
    reboot_ready || !upgrade_in_progress
}

/// Whether the recovery partition needs an update: its version differs from the current
/// release, or the release is marked urgent up to a build that the recovery image does not
/// reach. Without the recovery version, any urgency counts.
pub open spec fn spec_urgent(info: ReleaseInfo, recovery: Option<RecoveryVersion>) -> bool {
    match recovery {
        Some(r) => {
            let differs = r.version@ != info.current@;
            (match info.urgent {
                Some(u) => differs || r.build < 0 || r.build < u,
                None => false,
            }) || differs
        },
        None => match info.urgent {
            Some(u) => u > 0,
            None => false,
        },
    }
}

/// The recovery urgency of the release check `info`.
pub fn recovery_urgent(info: &ReleaseInfo, recovery: &Option<RecoveryVersion>) -> (r: bool)
    ensures
        r == spec_urgent(*info, *recovery),
{
    match recovery {
        Some(rinfo) => {
            let differs = rinfo.version != info.current;
            let marked = match info.urgent {
                Some(u) => differs || rinfo.build < 0 || (rinfo.build as u16) < u,
                None => false,
            };
            marked || differs
        },
        None => match info.urgent {
            Some(u) => u > 0,
            None => false,
        },
    }
}

/// The text of the upgrade row when the release check answered with a negative build
/// number, and whether that means the system is current.
pub open spec fn spec_build_status(build: i16) -> (UpgradeText, bool) {
    if build == -1 {
        (UpgradeText::BuildStatusError, false)
    } else if build == -2 || build == -4 {
        (UpgradeText::ReleaseCurrent, true)
    } else if build == -3 {
        (UpgradeText::ConnectionError, false)
    } else {
        (UpgradeText::UnknownStatus, false)
    }
}

/// What a scan found. `check` is the daemon's answer to the release check (`None` when no
/// check was made, because a download is in progress); `recovery` is the recovery
/// partition's version, read after a successful check (`None` when it could not be read).
pub open spec fn spec_scan_found(
    reboot_ready: bool,
    upgrading_recovery: bool,
    devel: bool,
    check: Option<Result<ReleaseInfo, ()>>,
    recovery: Option<RecoveryVersion>,
    refresh: bool,
) -> ScanFound {
    let base = ScanFound {
        is_current: false,
        is_lts: false,
        refresh,
        status_failed: false,
        reboot_ready,
        upgrading_recovery,
        urgent: false,
        current: None,
        upgrade_text: UpgradeText::Downloading,
        upgrade: None,
    };
    match check {
        None => base,
        Some(Err(())) => ScanFound {
            status_failed: true,
            upgrade_text: UpgradeText::UpdateCheckError,
            ..base
        },
        Some(Ok(info)) => {
            let found = ScanFound {
                is_lts: info.is_lts,
                urgent: spec_urgent(info, recovery),
                current: Some(info.current),
                ..base
            };
            if devel || info.build >= 0 {
                ScanFound {
                    upgrade_text: if reboot_ready {
                        UpgradeText::Ready(info.next)
                    } else {
                        UpgradeText::Available(info.next)
                    },
                    upgrade: Some(info),
                    ..found
                }
            } else {
                let (text, is_current) = spec_build_status(info.build);
                ScanFound {
                    is_current,
                    status_failed: !is_current,
                    upgrade_text: text,
                    ..found
                }
            }
        },
    }
}

/// The text for a negative build number.
fn build_status(build: i16) -> (r: (UpgradeText, bool))
    ensures
        r == spec_build_status(build),
{
    if build == -1 {
        (UpgradeText::BuildStatusError, false)
    } else if build == -2 || build == -4 {
        (UpgradeText::ReleaseCurrent, true)
    } else if build == -3 {
        (UpgradeText::ConnectionError, false)
    } else {
        (UpgradeText::UnknownStatus, false)
    }
}

/// The outcome of a scan. A user who may not administer the system is told so, whatever
/// else was found; the other arguments are as in `spec_scan_found`.
pub fn scan(
    is_admin: bool,
    reboot_ready: bool,
    upgrading_recovery: bool,
    devel: bool,
    check: Option<Result<ReleaseInfo, ()>>,
    recovery: Option<RecoveryVersion>,
    refresh: bool,
) -> (r: ScanEvent)
    ensures
        !is_admin ==> r is PermissionDenied,
        is_admin ==> r == ScanEvent::Found(
            spec_scan_found(reboot_ready, upgrading_recovery, devel, check, recovery, refresh),
        ),
{
    if !is_admin {
        return ScanEvent::PermissionDenied;
    }
    let base = ScanFound {
        is_current: false,
        is_lts: false,
        refresh,
        status_failed: false,
        reboot_ready,
        upgrading_recovery,
        urgent: false,
        current: None,
        upgrade_text: UpgradeText::Downloading,
        upgrade: None,
    };
    let found = match check {
        None => base,
        Some(Err(())) => ScanFound {
            status_failed: true,
            upgrade_text: UpgradeText::UpdateCheckError,
            ..base
        },
        Some(Ok(info)) => {
            let urgent = recovery_urgent(&info, &recovery);
            let found = ScanFound {
                is_lts: info.is_lts,
                urgent,
                current: Some(info.current.clone()),
                ..base
            };
            if devel || info.build >= 0 {
                let next = info.next.clone();
                ScanFound {
                    upgrade_text: if reboot_ready {
                        UpgradeText::Ready(next)
                    } else {
                        UpgradeText::Available(next)
                    },
                    upgrade: Some(info),
                    ..found
                }
            } else {
                let (text, is_current) = build_status(info.build);
                ScanFound { is_current, status_failed: !is_current, upgrade_text: text, ..found }
            }
        },
    };
    ScanEvent::Found(found)
}

/// A copy of a release check's answer.
fn copy_release_info(info: &ReleaseInfo) -> (r: ReleaseInfo)
    ensures
        r == *info,
{
    ReleaseInfo {
        current: info.current.clone(),
        next: info.next.clone(),
        build: info.build,
        urgent: info.urgent,
        is_lts: info.is_lts,
    }
}

/// What a click on the upgrade button does.
#[derive(Clone, Debug)]
pub enum UpgradeClick {
    /// The release is downloaded: the user is asked to confirm the upgrade.
    ConfirmUpgrade,
    /// The download of this release starts, and the host hears `Event::Upgrading`.
    Download(ReleaseInfo),
    /// Nothing was found to upgrade to.
    Nothing,
}

/// The rows that a reset shows again.
#[derive(Clone, Copy, Debug, PartialEq, Eq, Structural)]
pub struct ResetView {
    pub recovery_button: bool,
    pub refresh_button: bool,
    pub recovery_section: bool,
    pub upgrade_button: bool,
}

/// What the recovery row says.
#[derive(Clone, Copy, Debug, PartialEq, Eq, Structural)]
pub enum RecoveryStatus {
    /// An update of the recovery partition was found; its button starts it.
    UpdateFound,
    /// The recovery partition is being upgraded.
    Upgrading,
    /// The check of the recovery partition failed.
    CheckFailed,
    /// The recovery partition is current.
    Current,
}

/// The recovery row's status, and whether the refresh option may be used: not while the
/// recovery partition needs its update.
pub fn recovery_status(recovery_urgent: bool, status_failed: bool, upgrading: bool) -> (r: (
    RecoveryStatus,
    bool,
))
    ensures
        r.1 == !recovery_urgent,
        r.0 == (if recovery_urgent {
            RecoveryStatus::UpdateFound
        } else if upgrading {
            RecoveryStatus::Upgrading
        } else if status_failed {
            RecoveryStatus::CheckFailed
        } else {
            RecoveryStatus::Current
        }),
{
    if recovery_urgent {
        (RecoveryStatus::UpdateFound, false)
    } else if upgrading {
        (RecoveryStatus::Upgrading, true)
    } else if status_failed {
        (RecoveryStatus::CheckFailed, true)
    } else {
        (RecoveryStatus::Current, true)
    }
}

/// What the upgrade button does once a release was found.
#[derive(Clone, Copy, Debug, PartialEq, Eq, Structural)]
pub enum UpgradeAction {
    /// Download the release.
    Download,
    /// The release is downloaded: upgrade to it.
    Upgrade,
}

/// What the upgrade row shows after a scan.
#[derive(Clone, Debug)]
pub enum UpgradeRow {
    /// The row is disabled: the system is current (`true`), or the upgrade status could not
    /// be read (`false`).
    Disabled(bool),
    /// The row offers the upgrade: its button's action, if a release was found, and the
    /// release that the user may dismiss, for an LTS release.
    Offer { action: Option<UpgradeAction>, dismissible: Option<String> },
}

/// What the widget shows after a scan: the upgrade row, and the recovery section's status
/// (`None` when the section is hidden).
#[derive(Clone, Debug)]
pub struct ScanView {
    pub upgrade: UpgradeRow,
    pub recovery: Option<(RecoveryStatus, bool)>,
}

/// Whether the release `next` was dismissed: the file of dismissed releases holds exactly
/// its name. `dismissed` is that file's contents, `None` when it cannot be read.
pub fn is_dismissed(next: &str, dismissed: &Option<String>) -> (r: bool)
    ensures
        r == (match dismissed {
            Some(d) => d@ == next@,
            None => false,
        }),
{
    match dismissed {
        Some(d) => chars_eq(&chars_of(d.as_str()), &chars_of(next)),
        None => false,
    }
}

/// The text of an error followed by those of its sources, each after `": "`.
pub open spec fn with_sources(head: Seq<char>, sources: Seq<Seq<char>>) -> Seq<char>
    decreases sources.len(),
{
    if sources.len() == 0 {
        head
    } else {
        with_sources(head, sources.drop_last()) + ": "@ + sources.last()
    }
}

/// The message of an error and its chain of sources.
pub fn error_message(head: &str, sources: &Vec<String>) -> (r: String)
    ensures
        r@ == with_sources(head@, crate::text::string_views(sources@)),
{
    let mut r = String::new();
    r.append(head);
    let mut i: usize = 0;
    while i < sources.len()
        invariant
            i <= sources.len(),
            r@ == with_sources(head@, crate::text::string_views(sources@).take(i as int)),
        decreases sources.len() - i,
    {
        let ghost before = crate::text::string_views(sources@).take(i as int);
        r.append(": ");
        r.append(sources[i].as_str());
        proof {
            let after = crate::text::string_views(sources@).take(i + 1);
            assert(after.drop_last() =~= before);
            assert(after.last() == sources@[i as int]@);
        }
        i = i + 1;
    }
    assert(crate::text::string_views(sources@).take(sources.len() as int) =~= crate::text::string_views(
        sources@,
    ));
    r
}

/// The errors that the widget reports.
#[derive(Clone, Copy, Debug, PartialEq, Eq, Structural)]
pub enum UiErrorKind {
    Cancel,
    /// Dismissing (`true`) or un-dismissing the notifications failed.
    Dismiss(bool),
    Finalize,
    Recovery,
    Refresh,
    Updates,
    Upgrade,
}

impl UiErrorKind {
    /// The text of the error.
    pub fn message(self) -> (r: &'static str)
        ensures
            r@ == spec_ui_error_message(self),
    {
        match self {
            UiErrorKind::Cancel => "failed to cancel upgrade",
            UiErrorKind::Dismiss(_) => "failed to dismiss notifications",
            UiErrorKind::Finalize => "failed to finalize release upgrade",
            UiErrorKind::Recovery => "recovery upgrade failed",
            UiErrorKind::Refresh => "failed to set up OS refresh",
            UiErrorKind::Updates => "failed to update system",
            UiErrorKind::Upgrade => "failed to upgrade OS",
        }
    }
}

pub open spec fn spec_ui_error_message(kind: UiErrorKind) -> Seq<char> {
    match kind {
        UiErrorKind::Cancel => "failed to cancel upgrade"@,
        UiErrorKind::Dismiss(_) => "failed to dismiss notifications"@,
        UiErrorKind::Finalize => "failed to finalize release upgrade"@,
        UiErrorKind::Recovery => "recovery upgrade failed"@,
        UiErrorKind::Refresh => "failed to set up OS refresh"@,
        UiErrorKind::Updates => "failed to update system"@,
        UiErrorKind::Upgrade => "failed to upgrade OS"@,
    }
}

/// How the widget answers an error.
#[derive(Clone, Copy, Debug, PartialEq, Eq, Structural)]
pub struct ErrorResponse {
    /// The recovery row shows that the recovery download failed.
    pub recovery_failed: bool,
    /// The dismiss button is set back to this state (dismissal errors only).
    pub set_dismissed: Option<bool>,
    /// The host hears `Event::NotUpgrading` and the widget is reset.
    pub reset: bool,
}

/// The answer to an error of kind `kind`.
pub fn error_response(kind: UiErrorKind) -> (r: ErrorResponse)
    ensures
        r.recovery_failed == (kind == UiErrorKind::Recovery),
        r.set_dismissed == (match kind {
            UiErrorKind::Dismiss(d) => Some(!d),
            _ => None,
        }),
        r.reset == !(kind is Dismiss),
{
    let recovery_failed = match kind {
        UiErrorKind::Recovery => true,
        _ => false,
    };
    match kind {
        UiErrorKind::Dismiss(d) => ErrorResponse {
            recovery_failed,
            set_dismissed: Some(!d),
            reset: false,
        },
        _ => ErrorResponse { recovery_failed, set_dismissed: None, reset: true },
    }
}

impl State {
    /// A click on the upgrade button.
    pub fn on_upgrade_clicked(&self) -> (r: UpgradeClick)
        ensures
            self.upgrade_downloaded ==> r is ConfirmUpgrade,
            !self.upgrade_downloaded ==> match self.upgrade_version {
                Some(info) => r == UpgradeClick::Download(info),
                None => r is Nothing,
            },
    {
        if self.upgrade_downloaded {
            return UpgradeClick::ConfirmUpgrade;
        }
        match &self.upgrade_version {
            Some(info) => UpgradeClick::Download(copy_release_info(info)),
            None => UpgradeClick::Nothing,
        }
    }

    /// Resets the widget after an error: release fetching stops, and the buttons of what
    /// was found are shown again.
    pub fn reset(&mut self) -> (v: ResetView)
        ensures
            *final(self) == (State { fetching_release: false, ..*old(self) }),
            v.recovery_button == old(self).recovery_urgent,
            v.refresh_button == old(self).refresh_found,
            v.recovery_section == (old(self).recovery_urgent || old(self).refresh_found),
            v.upgrade_button == old(self).upgrade_found,
    {
        self.fetching_release = false;
        ResetView {
            recovery_button: self.recovery_urgent,
            refresh_button: self.refresh_found,
            recovery_section: self.recovery_urgent || self.refresh_found,
            upgrade_button: self.upgrade_found,
        }
    }

    /// Takes in what a scan found, and decides what the widget shows.
    pub fn on_scan_found(&mut self, found: ScanFound) -> (v: ScanView)
        ensures
            final(self).upgrade_label == Some(found.upgrade_text),
            final(self).upgrade_version == found.upgrade,
            final(self).refresh_found == found.refresh,
            final(self).recovery_urgent == (if found.current is Some {
                found.urgent
            } else {
                old(self).recovery_urgent
            }),
            final(self).current == (match found.current {
                Some(c) => c,
                None => old(self).current,
            }),
            final(self).fetching_release == old(self).fetching_release,
            final(self).upgrade_downloaded == old(self).upgrade_downloaded,
            final(self).upgrading_to == old(self).upgrading_to,
            found.is_current ==> v.upgrade == UpgradeRow::Disabled(true),
            !found.is_current && found.status_failed ==> v.upgrade == UpgradeRow::Disabled(
                false,
            ),
            !found.is_current && !found.status_failed ==> match found.upgrade {
                Some(info) => {
                    &&& final(self).upgrade_found
                    &&& final(self).upgrading_from == info.current
                    &&& v.upgrade == UpgradeRow::Offer {
                        action: Some(
                            if found.reboot_ready {
                                UpgradeAction::Upgrade
                            } else {
                                UpgradeAction::Download
                            },
                        ),
                        dismissible: if found.is_lts {
                            Some(info.next)
                        } else {
                            None
                        },
                    }
                },
                None => v.upgrade == UpgradeRow::Offer { action: None, dismissible: None }
                    && final(self).upgrade_found == old(self).upgrade_found
                    && final(self).upgrading_from == old(self).upgrading_from,
            },
            (found.is_current || found.status_failed) ==> final(self).upgrade_found == old(
                self,
            ).upgrade_found && final(self).upgrading_from == old(self).upgrading_from,
            v.recovery == (if found.refresh {
                Some(
                    (
                        if final(self).recovery_urgent {
                            RecoveryStatus::UpdateFound
                        } else if found.upgrading_recovery {
                            RecoveryStatus::Upgrading
                        } else if found.status_failed {
                            RecoveryStatus::CheckFailed
                        } else {
                            RecoveryStatus::Current
                        },
                        !final(self).recovery_urgent,
                    ),
                )
            } else {
                None
            }),
    {
        let ScanFound {
            is_current,
            is_lts,
            refresh,
            status_failed,
            reboot_ready,
            upgrading_recovery,
            urgent,
            current,
            upgrade_text,
            upgrade,
        } = found;
        self.upgrade_label = Some(upgrade_text);
        self.upgrade_version = upgrade;
        self.refresh_found = refresh;
        match current {
            Some(release) => {
                self.recovery_urgent = urgent;
                self.current = release;
            },
            None => {},
        }
        let row = if is_current {
            UpgradeRow::Disabled(true)
        } else if status_failed {
            UpgradeRow::Disabled(false)
        } else {
            match &self.upgrade_version {
                Some(info) => {
                    let from = info.current.clone();
                    let dismissible = if is_lts {
                        Some(info.next.clone())
                    } else {
                        None
                    };
                    let action = if reboot_ready {
                        UpgradeAction::Upgrade
                    } else {
                        UpgradeAction::Download
                    };
                    self.upgrade_found = true;
                    self.upgrading_from = from;
                    UpgradeRow::Offer { action: Some(action), dismissible }
                },
                None => UpgradeRow::Offer { action: None, dismissible: None },
            }
        };
        let recovery = if refresh {
            Some(recovery_status(self.recovery_urgent, status_failed, upgrading_recovery))
        } else {
            None
        };
        ScanView { upgrade: row, recovery }
    }
}

/// The notice under the upgrade row about the end of life of the running release.
#[derive(Clone, Copy, Debug)]
pub enum EolNotice {
    /// Support for `current` has ended; `next` is the release that follows it.
    Exceeded { current: Version, next: Version },
    /// Support for `current` ends on the day `ymd` (year, month, day).
    Imminent { current: Version, ymd: (u32, u32, u32) },
}

/// The notice for the end of life `eol` in the status `status`; none while the release is
/// supported.
pub fn eol_notice(eol: &EolDate, status: EolStatus) -> (r: Option<EolNotice>)
    requires
        eol.version.minor == 10 ==> eol.version.major < 255,
    ensures
        status == EolStatus::Supported ==> r is None,
        status == EolStatus::Imminent ==> r == Some(
            EolNotice::Imminent { current: eol.version, ymd: eol.ymd },
        ),
        status == EolStatus::Exceeded ==> r == Some(
            EolNotice::Exceeded { current: eol.version, next: spec_next_release(eol.version) },
        ),
{
    match status {
        EolStatus::Exceeded => Some(
            EolNotice::Exceeded { current: eol.version, next: eol.version.next_release() },
        ),
        EolStatus::Imminent => Some(EolNotice::Imminent { current: eol.version, ymd: eol.ymd }),
        EolStatus::Supported => None,
    }
}

/// While no more packages were fetched than there are, the bar stays in its first quarter
/// before the release is fetched, and in its second half while the release is fetched.
pub proof fn law_fetching_progress_bounds(fetching_release: bool, progress: nat, total: nat)
    requires
        total > 0,
        progress <= total,
    ensures
        !fetching_release ==> spec_fetching_progress(fetching_release, progress, total) <= 25,
        fetching_release ==> 50 <= spec_fetching_progress(fetching_release, progress, total)
            <= 100,
{
    let part = if fetching_release {
        progress / 2
    } else {
        progress / 4
    };
    if fetching_release {
        assert(part * 100 <= total * 50) by (nonlinear_arith)
            requires
                part == progress / 2,
                progress <= total,
        ;
        assert(part * 100 / total <= 50) by (nonlinear_arith)
            requires
                part * 100 <= total * 50,
                total > 0,
        ;
    } else {
        assert(part * 100 <= total * 25) by (nonlinear_arith)
            requires
                part == progress / 4,
                progress <= total,
        ;
        assert(part * 100 / total <= 25) by (nonlinear_arith)
            requires
                part * 100 <= total * 25,
                total > 0,
        ;
    }
}

/// What a listener in the background hands to the widget.
#[derive(Clone, Copy, Debug, PartialEq, Eq, Structural)]
pub enum WidgetEvent {
    Progress(ProgressEvent),
    WaitingOnLock,
    Recovery(RecoveryEvent),
    RecoveryCompleted,
    RecoveryFailed,
    Upgrade(UpgradeEvent),
}

/// The progress that an apt event shows, if any: its percentage, or that apt waits for
/// its lock.
pub open spec fn spec_apt_event(event: Option<AptEvent>) -> Option<WidgetEvent> {
    match event {
        Some(AptEvent::Progress { percent }) => Some(WidgetEvent::Progress(ProgressEvent::Updates(percent))),
        Some(AptEvent::WaitingOnLock) => Some(WidgetEvent::WaitingOnLock),
        _ => None,
    }
}

fn apt_event(event: &Option<AptEvent>) -> (r: Option<WidgetEvent>)
    ensures
        r == spec_apt_event(*event),
{
    match event {
        Some(AptEvent::Progress { percent }) => Some(
            WidgetEvent::Progress(ProgressEvent::Updates(*percent)),
        ),
        Some(AptEvent::WaitingOnLock) => Some(WidgetEvent::WaitingOnLock),
        _ => None,
    }
}

/// Whether a listener's flow is to go on, to stop, or to fail with the reason `why`.
pub open spec fn flow_of(f: Flow, go_on: bool, failure: Option<Seq<char>>) -> bool {
    match failure {
        Some(why) => f matches Flow::Fail(w) && w@ == why,
        None => if go_on {
            f is Continue
        } else {
            f is Stop
        },
    }
}

/// What the listener of a release download hands to the widget for a signal, whether it
/// goes on, and the failure that ends it.
pub open spec fn spec_download_step(signal: Signal) -> (Option<WidgetEvent>, bool, Option<Seq<char>>) {
    match signal {
        Signal::PackageFetched(s) => (
            Some(WidgetEvent::Progress(ProgressEvent::Fetching(s.completed as u64, s.total as u64))),
            true,
            None,
        ),
        Signal::PackageUpgrade(e) => (spec_apt_event(e), true, None),
        Signal::RecoveryDownloadProgress(p) => (
            Some(WidgetEvent::Progress(ProgressEvent::Recovery(p.progress, p.total))),
            true,
            None,
        ),
        Signal::RecoveryResult(s) => (
            Some(
                if s.status == 0 {
                    WidgetEvent::RecoveryCompleted
                } else {
                    WidgetEvent::RecoveryFailed
                },
            ),
            true,
            None,
        ),
        Signal::RecoveryEvent(e) => (Some(WidgetEvent::Recovery(e)), true, None),
        Signal::ReleaseEvent(e) => (Some(WidgetEvent::Upgrade(e)), true, None),
        Signal::ReleaseResult(s) => (None, false, if s.status != 0 {
            Some(s.why@)
        } else {
            None
        }),
        _ => (None, true, None),
    }
}

/// The listener of a release download.
pub fn download_step(signal: &Signal) -> (r: (Option<WidgetEvent>, Flow))
    ensures
        r.0 == spec_download_step(*signal).0,
        flow_of(r.1, spec_download_step(*signal).1, spec_download_step(*signal).2),
{
    match signal {
        Signal::PackageFetched(s) => (
            Some(WidgetEvent::Progress(ProgressEvent::Fetching(s.completed as u64, s.total as u64))),
            Flow::Continue,
        ),
        Signal::PackageUpgrade(e) => (apt_event(e), Flow::Continue),
        Signal::RecoveryDownloadProgress(p) => (
            Some(WidgetEvent::Progress(ProgressEvent::Recovery(p.progress, p.total))),
            Flow::Continue,
        ),
        Signal::RecoveryResult(s) => (
            Some(
                if s.status == 0 {
                    WidgetEvent::RecoveryCompleted
                } else {
                    WidgetEvent::RecoveryFailed
                },
            ),
            Flow::Continue,
        ),
        Signal::RecoveryEvent(e) => (Some(WidgetEvent::Recovery(*e)), Flow::Continue),
        Signal::ReleaseEvent(e) => (Some(WidgetEvent::Upgrade(*e)), Flow::Continue),
        Signal::ReleaseResult(s) => (None, if s.status != 0 {
            Flow::Fail(s.why.clone())
        } else {
            Flow::Stop
        }),
        _ => (None, Flow::Continue),
    }
}

/// What the listener of an update fetch hands to the widget for a signal, whether it goes
/// on, and the failure that ends it.
pub open spec fn spec_update_step(signal: Signal) -> (Option<WidgetEvent>, bool, Option<Seq<char>>) {
    match signal {
        Signal::PackageFetchResult(s) => (None, false, if s.status != 0 {
            Some(s.why@)
        } else {
            None
        }),
        Signal::PackageFetched(s) => (
            Some(WidgetEvent::Progress(ProgressEvent::Fetching(s.completed as u64, s.total as u64))),
            true,
            None,
        ),
        Signal::PackageUpgrade(e) => (spec_apt_event(e), true, None),
        Signal::ReleaseEvent(e) => (Some(WidgetEvent::Upgrade(e)), true, None),
        _ => (None, true, None),
    }
}

/// The listener of an update fetch.
pub fn update_step(signal: &Signal) -> (r: (Option<WidgetEvent>, Flow))
    ensures
        r.0 == spec_update_step(*signal).0,
        flow_of(r.1, spec_update_step(*signal).1, spec_update_step(*signal).2),
{
    match signal {
        Signal::PackageFetchResult(s) => (None, if s.status != 0 {
            Flow::Fail(s.why.clone())
        } else {
            Flow::Stop
        }),
        Signal::PackageFetched(s) => (
            Some(WidgetEvent::Progress(ProgressEvent::Fetching(s.completed as u64, s.total as u64))),
            Flow::Continue,
        ),
        Signal::PackageUpgrade(e) => (apt_event(e), Flow::Continue),
        Signal::ReleaseEvent(e) => (Some(WidgetEvent::Upgrade(*e)), Flow::Continue),
        _ => (None, Flow::Continue),
    }
}

/// What the listener of a recovery upgrade hands to the widget for a signal, whether it
/// goes on, and the failure that ends it.
pub open spec fn spec_recovery_step(signal: Signal) -> (Option<WidgetEvent>, bool, Option<Seq<char>>) {
    match signal {
        Signal::RecoveryDownloadProgress(p) => (
            Some(WidgetEvent::Progress(ProgressEvent::Recovery(p.progress, p.total))),
            true,
            None,
        ),
        Signal::RecoveryEvent(e) => (Some(WidgetEvent::Recovery(e)), true, None),
        Signal::RecoveryResult(s) => (None, false, if s.status != 0 {
            Some(s.why@)
        } else {
            None
        }),
        _ => (None, true, None),
    }
}

/// The listener of a recovery upgrade.
pub fn recovery_step(signal: &Signal) -> (r: (Option<WidgetEvent>, Flow))
    ensures
        r.0 == spec_recovery_step(*signal).0,
        flow_of(r.1, spec_recovery_step(*signal).1, spec_recovery_step(*signal).2),
{
    match signal {
        Signal::RecoveryDownloadProgress(p) => (
            Some(WidgetEvent::Progress(ProgressEvent::Recovery(p.progress, p.total))),
            Flow::Continue,
        ),
        Signal::RecoveryEvent(e) => (Some(WidgetEvent::Recovery(*e)), Flow::Continue),
        Signal::RecoveryResult(s) => (None, if s.status != 0 {
            Flow::Fail(s.why.clone())
        } else {
            Flow::Stop
        }),
        _ => (None, Flow::Continue),
    }
}

/// The outcome of an action, from the status the daemon reports for it.
#[derive(Clone, Debug)]
pub enum StatusOutcome {
    Completed,
    /// The action failed, for this reason.
    Failed(StatusError),
}

/// A status of 0 means the action completed; any other failed with the status's reason.
pub fn status_outcome(status: &Status) -> (r: StatusOutcome)
    ensures
        status.status == 0 ==> r is Completed,
        status.status != 0 ==> (r matches StatusOutcome::Failed(e) && e.0@ == status.why@),
{
    if status.status == 0 {
        StatusOutcome::Completed
    } else {
        StatusOutcome::Failed(StatusError(status.why.clone()))
    }
}

/// The dismissal that the dismiss button asks for: by the user, or undone.
pub fn dismiss_event(dismiss: bool) -> (r: DismissEvent)
    ensures
        dismiss ==> r == DismissEvent::ByUser,
        !dismiss ==> r == DismissEvent::Unset,
{
    if dismiss {
        DismissEvent::ByUser
    } else {
        DismissEvent::Unset
    }
}

/// The percentage of a progress bar at `current` of `total`, truncated to a byte as the bar
/// takes it.
pub fn progress_percent(current: u64, total: u64) -> (r: u8)
    requires
        total > 0,
        current * 100 <= u64::MAX,
    ensures
        r == ((current * 100) / (total as int)) as u8,
{
    (current * 100 / total) as u8
}

/// What a progress event shows.
#[derive(Clone, Copy, Debug, PartialEq, Eq, Structural)]
pub enum ProgressView {
    /// The upgrade row's bar, at this percentage.
    Upgrade(u8),
    /// The recovery row: KiB fetched of the total, and the bar's percentage.
    Recovery { fetched: u64, total: u64, percent: u8 },
}

/// Whether the widget can show a progress event: fetch counts and download sizes must
/// give a percentage without overflow.
pub open spec fn progress_shows(fetching_release: bool, event: ProgressEvent) -> bool {
    match event {
        ProgressEvent::Fetching(p, t) => t > 0 && (if fetching_release {
            p / 2
        } else {
            p / 4
        }) * 100 <= u64::MAX && spec_fetching_progress(fetching_release, p as nat, t as nat)
            <= u64::MAX,
        ProgressEvent::Recovery(p, t) => t > 0 && p * 100 <= u64::MAX,
        ProgressEvent::Updates(_) => true,
    }
}

impl State {
    /// What the widget shows for a progress event: the fetch and installation progress on
    /// the upgrade row, the recovery download on the recovery row.
    pub fn progress_view(&self, event: ProgressEvent) -> (r: ProgressView)
        requires
            progress_shows(self.fetching_release, event),
        ensures
            r == (match event {
                ProgressEvent::Fetching(p, t) => ProgressView::Upgrade(
                    spec_fetching_progress(self.fetching_release, p as nat, t as nat) as u8,
                ),
                ProgressEvent::Recovery(p, t) => ProgressView::Recovery {
                    fetched: p / 1024,
                    total: t / 1024,
                    percent: ((p * 100) / (t as int)) as u8,
                },
                ProgressEvent::Updates(percent) => ProgressView::Upgrade((percent / 4 + 25) as u8),
            }),
    {
        match event {
            ProgressEvent::Fetching(progress, total) => {
                let percent = self.calculate_fetching_progress(progress, total);
                ProgressView::Upgrade(percent as u8)
            },
            ProgressEvent::Recovery(progress, total) => ProgressView::Recovery {
                fetched: progress / 1024,
                total: total / 1024,
                percent: progress_percent(progress, total),
            },
            ProgressEvent::Updates(percent) => ProgressView::Upgrade(updates_progress(percent)),
        }
    }
}

/// A scan that finds the system current neither offers an upgrade nor reports a failure, and
/// one that offers an upgrade reports no failure.
pub proof fn law_scan_outcomes_exclusive(
    reboot_ready: bool,
    upgrading_recovery: bool,
    devel: bool,
    check: Option<Result<ReleaseInfo, ()>>,
    recovery: Option<RecoveryVersion>,
    refresh: bool,
)
    ensures
        ({
            let found = spec_scan_found(
                reboot_ready,
                upgrading_recovery,
                devel,
                check,
                recovery,
                refresh,
            );
            &&& found.is_current ==> found.upgrade is None && !found.status_failed
            &&& found.upgrade is Some ==> !found.status_failed && !found.is_current
        }),
{
}

/// What the download of a release tells the widget around the events of its listener.
#[derive(Clone, Debug)]
pub enum DownloadNotice {
    /// The download of the named release began.
    Initiated(String),
    /// The upgrade request or its listener failed with this error.
    UpgradeError(String),
    /// The download completed.
    Completed,
}

/// The course of a release download: `update_ok` is whether the update step before it
/// succeeded, `request` the daemon's answer to the upgrade request, and `listen` how
/// listening to the upgrade ended (`None` while it has not). The notices sent, in order, and
/// whether the upgrade is requested. Without a successful update nothing more is sent and
/// nothing is requested; a refused request is reported and ends the download.
pub fn download_plan(
    update_ok: bool,
    next: String,
    request: Result<(), String>,
    listen: Option<Result<(), String>>,
) -> (r: (Vec<DownloadNotice>, bool))
    ensures
        !update_ok ==> r.0@.len() == 0 && !r.1,
        update_ok ==> r.1 && match request {
            Err(e) => r.0@ == seq![DownloadNotice::Initiated(next), DownloadNotice::UpgradeError(e)],
            Ok(()) => match listen {
                None => r.0@ == seq![DownloadNotice::Initiated(next)],
                Some(Ok(())) => r.0@ == seq![
                    DownloadNotice::Initiated(next),
                    DownloadNotice::Completed,
                ],
                Some(Err(e)) => r.0@ == seq![
                    DownloadNotice::Initiated(next),
                    DownloadNotice::UpgradeError(e),
                ],
            },
        },
{
    let mut sent: Vec<DownloadNotice> = Vec::new();
    if !update_ok {
        return (sent, false);
    }
    sent.push(DownloadNotice::Initiated(next));
    match request {
        Err(e) => {
            sent.push(DownloadNotice::UpgradeError(e));
        },
        Ok(()) => match listen {
            None => {},
            Some(Ok(())) => {
                sent.push(DownloadNotice::Completed);
            },
            Some(Err(e)) => {
                sent.push(DownloadNotice::UpgradeError(e));
            },
        },
    }
    (sent, true)
}

/// What a scan tells the widget, in order.
#[derive(Clone, Debug)]
pub enum ScanNotice {
    /// The scan began.
    Scanning,
    /// The scan completed with this outcome.
    Completed(ScanEvent),
}

/// What a scan sends, in order, and whether it asks the daemon anything: first that the scan
/// began, then its outcome as [`scan`] gives it. A user who may not administer the system
/// gets the refusal and the daemon is not asked; the other arguments are then ignored.
pub fn scan_notices(
    is_admin: bool,
    reboot_ready: bool,
    upgrading_recovery: bool,
    devel: bool,
    check: Option<Result<ReleaseInfo, ()>>,
    recovery: Option<RecoveryVersion>,
    refresh: bool,
) -> (r: (Vec<ScanNotice>, bool))
    ensures
        r.0@.len() == 2,
        r.0@[0] is Scanning,
        !is_admin ==> r.0@[1] == ScanNotice::Completed(ScanEvent::PermissionDenied),
        is_admin ==> r.0@[1] == ScanNotice::Completed(
            ScanEvent::Found(
                spec_scan_found(reboot_ready, upgrading_recovery, devel, check, recovery, refresh),
            ),
        ),
        r.1 == is_admin,
{
    let mut sent: Vec<ScanNotice> = Vec::new();
    sent.push(ScanNotice::Scanning);
    let outcome = scan(is_admin, reboot_ready, upgrading_recovery, devel, check, recovery, refresh);
    sent.push(ScanNotice::Completed(outcome));
    (sent, is_admin)
}

} // verus!
