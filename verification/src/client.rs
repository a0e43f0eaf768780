//! The data that the upgrade daemon and its clients exchange, and what clients decide from it.

use vstd::prelude::*;

verus! {

pub const DEVELOPMENT_RELEASE_FILE: &'static str = "/etc/pop-upgrade/devel";

pub const RELEASE_FETCH_FILE: &'static str = "/pop_preparing_release_upgrade";

pub const RESTART_SCHEDULED: &'static str = "/var/lib/pop-upgrade/restarting";

pub const STARTUP_UPGRADE_FILE: &'static str = "/pop-upgrade";

/// Which of the files that mark the state of an upgrade exist on this system.
#[derive(Clone, Copy, Debug, PartialEq, Eq, Structural)]
pub struct MarkerFiles {
    /// `DEVELOPMENT_RELEASE_FILE` exists.
    pub development_release: bool,
    /// `RELEASE_FETCH_FILE` exists.
    pub release_fetch: bool,
    /// `STARTUP_UPGRADE_FILE` exists.
    pub startup_upgrade: bool,
}

/// Development releases are offered when the development-release file exists.
pub fn development_releases_enabled(files: &MarkerFiles) -> (r: bool)
    ensures
        r == files.development_release,
{
    files.development_release
}

/// The system is ready to reboot into the upgrade when the startup upgrade file exists.
pub fn reboot_is_ready(files: &MarkerFiles) -> (r: bool)
    ensures
        r == files.startup_upgrade,
{
    files.startup_upgrade
}

/// An upgrade is in progress while packages are fetched for a new release, or when the system
/// is set to upgrade on the next boot.
pub fn upgrade_in_progress(files: &MarkerFiles) -> (r: bool)
    ensures
        r == (files.startup_upgrade || files.release_fetch),
{
    files.startup_upgrade || files.release_fetch
}

/// Whether the recovery partition is mounted: one of the mount points read from
/// `/proc/mounts` is the path `/recovery`.
pub fn recovery_exists(mount_dests: &Vec<String>) -> (r: bool)
    ensures
        r == exists|i: int|
            0 <= i < mount_dests@.len() && #[trigger] crate::fstab::std_path_eq(
                mount_dests@[i]@,
                "/recovery"@,
            ),
{
    let mut i: usize = 0;
    while i < mount_dests.len()
        invariant
            i <= mount_dests.len(),
            forall|k: int|
                0 <= k < i ==> !#[trigger] crate::fstab::std_path_eq(
                    mount_dests@[k]@,
                    "/recovery"@,
                ),
        decreases mount_dests.len() - i,
    {
        if crate::fstab::path_eq(mount_dests[i].as_str(), "/recovery") {
            return true;
        }
        i = i + 1;
    }
    false
}

/// The status of the daemon that was retrieved.
#[derive(Clone, Debug)]
pub struct DaemonState {
    pub status: u8,
    pub sub_status: u8,
}

#[derive(Copy, Clone, Debug, PartialEq, Eq, Structural)]
pub enum DaemonStatus {
    Inactive,
    FetchingPackages,
    RecoveryUpgrade,
    ReleaseUpgrade,
    PackageUpgrade,
}

impl DaemonStatus {
    /// The number that represents the status on the wire.
    pub open spec fn code(self) -> u8 {
        match self {
            DaemonStatus::Inactive => 0,
            DaemonStatus::FetchingPackages => 1,
            DaemonStatus::RecoveryUpgrade => 2,
            DaemonStatus::ReleaseUpgrade => 3,
            DaemonStatus::PackageUpgrade => 4,
        }
    }

    pub open spec fn description(self) -> Seq<char> {
        match self {
            DaemonStatus::Inactive => "inactive"@,
            DaemonStatus::FetchingPackages => "fetching package updates"@,
            DaemonStatus::RecoveryUpgrade => "upgrading recovery partition"@,
            DaemonStatus::ReleaseUpgrade => "upgrading distribution release"@,
            DaemonStatus::PackageUpgrade => "upgrading packages"@,
        }
    }

    pub fn to_u8(self) -> (r: u8)
        ensures
            r == self.code(),
    {
        match self {
            DaemonStatus::Inactive => 0,
            DaemonStatus::FetchingPackages => 1,
            DaemonStatus::RecoveryUpgrade => 2,
            DaemonStatus::ReleaseUpgrade => 3,
            DaemonStatus::PackageUpgrade => 4,
        }
    }

    /// The status that `code` represents, if any.
    pub fn from_u8(code: u8) -> (r: Option<DaemonStatus>)
        ensures
            match r {
                Some(s) => s.code() == code,
                None => code > 4,
            },
    {
        match code {
            0 => Some(DaemonStatus::Inactive),
            1 => Some(DaemonStatus::FetchingPackages),
            2 => Some(DaemonStatus::RecoveryUpgrade),
            3 => Some(DaemonStatus::ReleaseUpgrade),
            4 => Some(DaemonStatus::PackageUpgrade),
            _ => None,
        }
    }

    pub fn as_str(self) -> (r: &'static str)
        ensures
            r@ == self.description(),
    {
        match self {
            DaemonStatus::Inactive => "inactive",
            DaemonStatus::FetchingPackages => "fetching package updates",
            DaemonStatus::RecoveryUpgrade => "upgrading recovery partition",
            DaemonStatus::ReleaseUpgrade => "upgrading distribution release",
            DaemonStatus::PackageUpgrade => "upgrading packages",
        }
    }
}

#[derive(Clone, Copy, Debug, PartialEq, Eq, Structural)]
pub enum DismissEvent {
    ByTimestamp,
    ByUser,
    Unset,
}

impl DismissEvent {
    pub open spec fn code(self) -> u8 {
        match self {
            DismissEvent::ByTimestamp => 1,
            DismissEvent::ByUser => 2,
            DismissEvent::Unset => 3,
        }
    }

    pub fn to_u8(self) -> (r: u8)
        ensures
            r == self.code(),
    {
        match self {
            DismissEvent::ByTimestamp => 1,
            DismissEvent::ByUser => 2,
            DismissEvent::Unset => 3,
        }
    }

    pub fn from_u8(code: u8) -> (r: Option<DismissEvent>)
        ensures
            match r {
                Some(e) => e.code() == code,
                None => code == 0 || code > 3,
            },
    {
        match code {
            1 => Some(DismissEvent::ByTimestamp),
            2 => Some(DismissEvent::ByUser),
            3 => Some(DismissEvent::Unset),
            _ => None,
        }
    }
}

/// Information about available system updates.
#[derive(Clone, Debug)]
pub struct Fetched {
    pub updates_available: bool,
    pub completed: u32,
    pub total: u32,
}

/// Information about the current fetch progress.
#[derive(Clone, Debug)]
pub struct FetchStatus {
    pub package: String,
    pub completed: u32,
    pub total: u32,
}

/// Data for tracking progress of an action.
#[derive(Clone, Debug)]
pub struct Progress {
    pub progress: u64,
    pub total: u64,
}

#[derive(Clone, Copy, Debug, PartialEq, Eq, Structural)]
pub enum RecoveryEvent {
    Fetching,
    Verifying,
    Syncing,
    Complete,
}

impl RecoveryEvent {
    pub open spec fn code(self) -> u8 {
        match self {
            RecoveryEvent::Fetching => 1,
            RecoveryEvent::Verifying => 2,
            RecoveryEvent::Syncing => 3,
            RecoveryEvent::Complete => 4,
        }
    }

    pub open spec fn description(self) -> Seq<char> {
        match self {
            RecoveryEvent::Fetching => "fetching recovery files"@,
            RecoveryEvent::Syncing => "syncing recovery files with recovery partition"@,
            RecoveryEvent::Verifying => "verifying checksums of fetched files"@,
            RecoveryEvent::Complete => "recovery partition upgrade completed"@,
        }
    }

    pub fn from_u8(code: u8) -> (r: Option<RecoveryEvent>)
        ensures
            match r {
                Some(e) => e.code() == code,
                None => code == 0 || code > 4,
            },
    {
        match code {
            1 => Some(RecoveryEvent::Fetching),
            2 => Some(RecoveryEvent::Verifying),
            3 => Some(RecoveryEvent::Syncing),
            4 => Some(RecoveryEvent::Complete),
            _ => None,
        }
    }

    pub fn as_str(self) -> (r: &'static str)
        ensures
            r@ == self.description(),
    {
        match self {
            RecoveryEvent::Fetching => "fetching recovery files",
            RecoveryEvent::Syncing => "syncing recovery files with recovery partition",
            RecoveryEvent::Verifying => "verifying checksums of fetched files",
            RecoveryEvent::Complete => "recovery partition upgrade completed",
        }
    }
}

/// The version of the recovery partition's image.
#[derive(Clone, Debug)]
pub struct RecoveryVersion {
    pub version: String,
    pub build: i16,
}

#[derive(Copy, Clone, Debug, PartialEq, Eq, Structural)]
pub enum RefreshOp {
    Status,
    Enable,
    Disable,
}

impl RefreshOp {
    pub open spec fn code(self) -> u8 {
        match self {
            RefreshOp::Status => 0,
            RefreshOp::Enable => 1,
            RefreshOp::Disable => 2,
        }
    }

    pub fn to_u8(self) -> (r: u8)
        ensures
            r == self.code(),
    {
        match self {
            RefreshOp::Status => 0,
            RefreshOp::Enable => 1,
            RefreshOp::Disable => 2,
        }
    }
}

/// Flags of a release request: `NEXT` asks for the next release.
#[derive(Clone, Copy, Debug, PartialEq, Eq, Structural)]
pub struct ReleaseFlags {
    pub bits: u8,
}

impl ReleaseFlags {
    pub const NEXT: u8 = 1;

    pub fn empty() -> (r: ReleaseFlags)
        ensures
            r.bits == 0,
    {
        ReleaseFlags { bits: 0 }
    }

    pub fn next() -> (r: ReleaseFlags)
        ensures
            r.bits == 1,
    {
        ReleaseFlags { bits: 1 }
    }

    pub fn contains_next(&self) -> (r: bool)
        ensures
            r == (self.bits % 2 == 1),
    {
        self.bits % 2 == 1
    }
}

/// Information about the current and next release.
///
/// The build is set to `-1` if the next release is
/// not available.
#[derive(Clone, Debug)]
pub struct ReleaseInfo {
    pub current: String,
    pub next: String,
    pub build: i16,
    pub urgent: Option<u16>,
    pub is_lts: bool,
}

/// Contains information about good and bad repositories.
#[derive(Clone, Debug)]
pub struct RepoCompatError {
    pub success: Vec<String>,
    pub failure: Vec<(String, String)>,
}

/// The status of an action, and a description of why.
#[derive(Clone, Debug)]
pub struct Status {
    pub status: u8,
    pub why: String,
}

/// Release-upgrade events, numbered as the client receives them.
#[derive(Clone, Copy, Debug, PartialEq, Eq, Structural)]
pub enum UpgradeEvent {
    UpdatingPackageLists,
    FetchingPackages,
    UpgradingPackages,
    InstallingPackages,
    UpdatingSourceLists,
    FetchingPackagesForNewRelease,
    AttemptingLiveUpgrade,
    AttemptingSystemdUnit,
    AttemptingRecovery,
    Success,
    SuccessLive,
    Failure,
    AptFilesLocked,
    RemovingConflicts,
    Simulating,
}

impl UpgradeEvent {
    pub open spec fn code(self) -> u8 {
        match self {
            UpgradeEvent::UpdatingPackageLists => 1,
            UpgradeEvent::FetchingPackages => 2,
            UpgradeEvent::UpgradingPackages => 3,
            UpgradeEvent::InstallingPackages => 4,
            UpgradeEvent::UpdatingSourceLists => 5,
            UpgradeEvent::FetchingPackagesForNewRelease => 6,
            UpgradeEvent::AttemptingLiveUpgrade => 7,
            UpgradeEvent::AttemptingSystemdUnit => 8,
            UpgradeEvent::AttemptingRecovery => 9,
            UpgradeEvent::Success => 10,
            UpgradeEvent::SuccessLive => 11,
            UpgradeEvent::Failure => 12,
            UpgradeEvent::AptFilesLocked => 13,
            UpgradeEvent::RemovingConflicts => 14,
            UpgradeEvent::Simulating => 15,
        }
    }

    pub open spec fn description(self) -> Seq<char> {
        match self {
            UpgradeEvent::AptFilesLocked => "waiting on a process holding the apt lock files"@,
            UpgradeEvent::AttemptingLiveUpgrade => "attempting live upgrade to the new release"@,
            UpgradeEvent::AttemptingSystemdUnit =>
                "setting up the system to perform an offline upgrade on the next boot"@,
            UpgradeEvent::AttemptingRecovery =>
                "setting up the recovery partition to install the new release"@,
            UpgradeEvent::Failure => "an error occurred while setting up the release upgrade"@,
            UpgradeEvent::FetchingPackages => "fetching updated packages for the current release"@,
            UpgradeEvent::FetchingPackagesForNewRelease =>
                "fetching packages for the new release"@,
            UpgradeEvent::InstallingPackages =>
                "ensuring that system-critical packages are installed"@,
            UpgradeEvent::RemovingConflicts => "removing deprecated and/or conflicting packages"@,
            UpgradeEvent::Success => "new release is ready to install"@,
            UpgradeEvent::SuccessLive => "new release was successfully installed"@,
            UpgradeEvent::UpdatingPackageLists => "updating package lists"@,
            UpgradeEvent::UpdatingSourceLists => "updating the source lists"@,
            UpgradeEvent::UpgradingPackages => "upgrading packages for the current release"@,
            UpgradeEvent::Simulating => "simulating upgrade"@,
        }
    }

    pub fn from_u8(code: u8) -> (r: Option<UpgradeEvent>)
        ensures
            match r {
                Some(e) => e.code() == code,
                None => code == 0 || code > 15,
            },
    {
        match code {
            1 => Some(UpgradeEvent::UpdatingPackageLists),
            2 => Some(UpgradeEvent::FetchingPackages),
            3 => Some(UpgradeEvent::UpgradingPackages),
            4 => Some(UpgradeEvent::InstallingPackages),
            5 => Some(UpgradeEvent::UpdatingSourceLists),
            6 => Some(UpgradeEvent::FetchingPackagesForNewRelease),
            7 => Some(UpgradeEvent::AttemptingLiveUpgrade),
            8 => Some(UpgradeEvent::AttemptingSystemdUnit),
            9 => Some(UpgradeEvent::AttemptingRecovery),
            10 => Some(UpgradeEvent::Success),
            11 => Some(UpgradeEvent::SuccessLive),
            12 => Some(UpgradeEvent::Failure),
            13 => Some(UpgradeEvent::AptFilesLocked),
            14 => Some(UpgradeEvent::RemovingConflicts),
            15 => Some(UpgradeEvent::Simulating),
            _ => None,
        }
    }

    pub fn as_str(self) -> (r: &'static str)
        ensures
            r@ == self.description(),
    {
        match self {
            UpgradeEvent::AptFilesLocked => "waiting on a process holding the apt lock files",
            UpgradeEvent::AttemptingLiveUpgrade => "attempting live upgrade to the new release",
            UpgradeEvent::AttemptingSystemdUnit => {
                "setting up the system to perform an offline upgrade on the next boot"
            },
            UpgradeEvent::AttemptingRecovery => {
                "setting up the recovery partition to install the new release"
            },
            UpgradeEvent::Failure => "an error occurred while setting up the release upgrade",
            UpgradeEvent::FetchingPackages => "fetching updated packages for the current release",
            UpgradeEvent::FetchingPackagesForNewRelease => "fetching packages for the new release",
            UpgradeEvent::InstallingPackages => {
                "ensuring that system-critical packages are installed"
            },
            UpgradeEvent::RemovingConflicts => "removing deprecated and/or conflicting packages",
            UpgradeEvent::Success => "new release is ready to install",
            UpgradeEvent::SuccessLive => "new release was successfully installed",
            UpgradeEvent::UpdatingPackageLists => "updating package lists",
            UpgradeEvent::UpdatingSourceLists => "updating the source lists",
            UpgradeEvent::UpgradingPackages => "upgrading packages for the current release",
            UpgradeEvent::Simulating => "simulating upgrade",
        }
    }
}

/// How a release upgrade is requested of the recovery partition: from an ISO file, or from a
/// release of the release API.
#[derive(Debug, Clone)]
pub enum UpgradeMethod {
    FromFile(String),
    FromRelease { version: Option<String>, arch: Option<String>, flags: ReleaseFlags },
}

/// The two texts that describe a daemon status and sub-status.
pub open spec fn spec_status_description(status: u8, sub_status: u8) -> (Seq<char>, Seq<char>) {
    match spec_daemon_status(status) {
        Some(s) => {
            let sub = match s {
                DaemonStatus::ReleaseUpgrade => match spec_upgrade_event(sub_status) {
                    Some(e) => e.description(),
                    None => "unknown sub_status"@,
                },
                DaemonStatus::RecoveryUpgrade => match spec_recovery_event(sub_status) {
                    Some(e) => e.description(),
                    None => "unknown sub_status"@,
                },
                _ => ""@,
            };
            (s.description(), sub)
        },
        None => ("unknown status"@, ""@),
    }
}

pub open spec fn spec_daemon_status(code: u8) -> Option<DaemonStatus> {
    if code == 0 {
        Some(DaemonStatus::Inactive)
    } else if code == 1 {
        Some(DaemonStatus::FetchingPackages)
    } else if code == 2 {
        Some(DaemonStatus::RecoveryUpgrade)
    } else if code == 3 {
        Some(DaemonStatus::ReleaseUpgrade)
    } else if code == 4 {
        Some(DaemonStatus::PackageUpgrade)
    } else {
        None
    }
}

pub open spec fn spec_upgrade_event(code: u8) -> Option<UpgradeEvent> {
    if exists|e: UpgradeEvent| e.code() == code {
        Some(choose|e: UpgradeEvent| e.code() == code)
    } else {
        None
    }
}

pub open spec fn spec_recovery_event(code: u8) -> Option<RecoveryEvent> {
    if exists|e: RecoveryEvent| e.code() == code {
        Some(choose|e: RecoveryEvent| e.code() == code)
    } else {
        None
    }
}

proof fn lemma_upgrade_event_codes_distinct(a: UpgradeEvent, b: UpgradeEvent)
    ensures
        a.code() == b.code() ==> a == b,
{
}

proof fn lemma_recovery_event_codes_distinct(a: RecoveryEvent, b: RecoveryEvent)
    ensures
        a.code() == b.code() ==> a == b,
{
}

/// What `pop-upgrade status` prints for a daemon status and sub-status: the description of
/// the status and, for release and recovery upgrades, of the event in progress.
pub fn status_description(status: u8, sub_status: u8) -> (r: (&'static str, &'static str))
    ensures
        (r.0@, r.1@) == spec_status_description(status, sub_status),
{
    match DaemonStatus::from_u8(status) {
        Some(s) => {
            let x = s.as_str();
            let y = match s {
                DaemonStatus::ReleaseUpgrade => match UpgradeEvent::from_u8(sub_status) {
                    Some(sub) => {
                        proof {
                            assert forall|e: UpgradeEvent| e.code() == sub_status implies e
                                == sub by {
                                lemma_upgrade_event_codes_distinct(e, sub);
                            }
                        }
                        sub.as_str()
                    },
                    None => "unknown sub_status",
                },
                DaemonStatus::RecoveryUpgrade => match RecoveryEvent::from_u8(sub_status) {
                    Some(sub) => {
                        proof {
                            assert forall|e: RecoveryEvent| e.code() == sub_status implies e
                                == sub by {
                                lemma_recovery_event_codes_distinct(e, sub);
                            }
                        }
                        sub.as_str()
                    },
                    None => "unknown sub_status",
                },
                _ => "",
            };
            (x, y)
        },
        None => ("unknown status", ""),
    }
}

/// An upgrade event decodes back from the number it is sent as.
pub proof fn law_upgrade_event_code_round_trip(e: UpgradeEvent)
    ensures
        spec_upgrade_event(e.code()) == Some(e),
{
    assert(exists|x: UpgradeEvent| x.code() == e.code());
    let c = choose|x: UpgradeEvent| x.code() == e.code();
    lemma_upgrade_event_codes_distinct(c, e);
}

/// A recovery event decodes back from the number it is sent as.
pub proof fn law_recovery_event_code_round_trip(e: RecoveryEvent)
    ensures
        spec_recovery_event(e.code()) == Some(e),
{
    assert(exists|x: RecoveryEvent| x.code() == e.code());
    let c = choose|x: RecoveryEvent| x.code() == e.code();
    lemma_recovery_event_codes_distinct(c, e);
}

/// A status decodes back from the number it is sent as.
pub proof fn law_daemon_status_code_round_trip(s: DaemonStatus)
    ensures
        spec_daemon_status(s.code()) == Some(s),
{
}

/// An event of an apt package upgrade.
#[derive(Clone, Debug)]
pub enum AptEvent {
    Processing { package: String },
    Progress { percent: u8 },
    SettingUp { package: String },
    Unpacking { package: String, version: String, over: String },
    WaitingOnLock,
}

/// A signal of the daemon, as the client's listeners see it.
#[derive(Clone, Debug)]
pub enum Signal {
    PackageFetchResult(Status),
    PackageFetched(FetchStatus),
    /// An apt upgrade event; `None` when it could not be unpacked.
    PackageUpgrade(Option<AptEvent>),
    RecoveryDownloadProgress(Progress),
    RecoveryEvent(RecoveryEvent),
    RecoveryResult(Status),
    ReleaseResult(Status),
    ReleaseEvent(crate::release::UpgradeEvent),
    NoConnection,
    /// A signal that the listeners ignore.
    Other,
}

/// What a listener does after a signal.
#[derive(Clone, Debug)]
pub enum Flow {
    /// Keep listening.
    Continue,
    /// Stop listening: the action ended.
    Stop,
    /// Stop listening: the action failed for this reason.
    Fail(String),
    /// Ask the user whether to try again, and hand the answer to the listener.
    AskRetry,
}

} // verus!
