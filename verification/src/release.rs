//! Decisions of the release upgrade: event descriptions, codename names of versions, and which
//! packages to remove, downgrade or hold.

use vstd::prelude::*;

use crate::codename::Codename;
use crate::text::{
    ascii_words, chars_eq, chars_of, ends_with, extend, find, find_at, has_suffix, slice,
    split_ascii_words, split_lines, string_of, string_views, views, lines,
};
use crate::version::{parse_version, ParsedVersion, Version};

verus! {

pub const STARTUP_UPGRADE_FILE: &'static str = "/pop-upgrade";

pub const RELEASE_FETCH_FILE: &'static str = "/pop_preparing_release_upgrade";

pub const SYSTEM_UPDATE: &'static str = "/system-update";

#[derive(Copy, Clone, Debug, PartialEq, Eq, Structural)]
pub enum RefreshOp {
    Status,
    Enable,
    Disable,
}

#[derive(Clone, Copy, Debug, PartialEq, Eq, Structural)]
pub enum UpgradeMethod {
    Offline,
}

impl UpgradeMethod {
    pub fn as_str(self) -> (r: &'static str)
        ensures
            r@ == "offline upgrade"@,
    {
        match self {
            UpgradeMethod::Offline => "offline upgrade",
        }
    }

    pub fn from_u8(code: u8) -> (r: Option<UpgradeMethod>)
        ensures
            r == (if code == 1 {
                Some(UpgradeMethod::Offline)
            } else {
                None
            }),
    {
        if code == 1 {
            Some(UpgradeMethod::Offline)
        } else {
            None
        }
    }
}

/// Release-upgrade events, numbered as the daemon sends them.
#[derive(Clone, Copy, Debug, PartialEq, Eq, Structural)]
pub enum UpgradeEvent {
    UpdatingPackageLists,
    FetchingPackages,
    UpgradingPackages,
    InstallingPackages,
    UpdatingSourceLists,
    FetchingPackagesForNewRelease,
    FetchingAdditionalPackagesForNewRelease,
    AttemptingLiveUpgrade,
    AttemptingSystemdUnit,
    AttemptingRecovery,
    Success,
    SuccessLive,
    Failure,
    AptFilesLocked,
    RemovingConflicts,
    Simulating,
}

impl UpgradeEvent {
    pub open spec fn code(self) -> u8 {
        match self {
            UpgradeEvent::UpdatingPackageLists => 1,
            UpgradeEvent::FetchingPackages => 2,
            UpgradeEvent::UpgradingPackages => 3,
            UpgradeEvent::InstallingPackages => 4,
            UpgradeEvent::UpdatingSourceLists => 5,
            UpgradeEvent::FetchingPackagesForNewRelease => 6,
            UpgradeEvent::FetchingAdditionalPackagesForNewRelease => 7,
            UpgradeEvent::AttemptingLiveUpgrade => 8,
            UpgradeEvent::AttemptingSystemdUnit => 9,
            UpgradeEvent::AttemptingRecovery => 10,
            UpgradeEvent::Success => 11,
            UpgradeEvent::SuccessLive => 12,
            UpgradeEvent::Failure => 13,
            UpgradeEvent::AptFilesLocked => 14,
            UpgradeEvent::RemovingConflicts => 15,
            UpgradeEvent::Simulating => 16,
        }
    }

    pub fn to_u8(self) -> (r: u8)
        ensures
            r == self.code(),
    {
        match self {
            UpgradeEvent::UpdatingPackageLists => 1,
            UpgradeEvent::FetchingPackages => 2,
            UpgradeEvent::UpgradingPackages => 3,
            UpgradeEvent::InstallingPackages => 4,
            UpgradeEvent::UpdatingSourceLists => 5,
            UpgradeEvent::FetchingPackagesForNewRelease => 6,
            UpgradeEvent::FetchingAdditionalPackagesForNewRelease => 7,
            UpgradeEvent::AttemptingLiveUpgrade => 8,
            UpgradeEvent::AttemptingSystemdUnit => 9,
            UpgradeEvent::AttemptingRecovery => 10,
            UpgradeEvent::Success => 11,
            UpgradeEvent::SuccessLive => 12,
            UpgradeEvent::Failure => 13,
            UpgradeEvent::AptFilesLocked => 14,
            UpgradeEvent::RemovingConflicts => 15,
            UpgradeEvent::Simulating => 16,
        }
    }

    pub open spec fn description(self) -> Seq<char> {
        match self {
            UpgradeEvent::AptFilesLocked => "waiting on a process holding the apt lock files"@,
            UpgradeEvent::AttemptingLiveUpgrade => "attempting live upgrade to the new release"@,
            UpgradeEvent::AttemptingSystemdUnit =>
                "setting up the system to perform an offline upgrade on the next boot"@,
            UpgradeEvent::AttemptingRecovery =>
                "setting up the recovery partition to install the new release"@,
            UpgradeEvent::Failure => "an error occurred while setting up the release upgrade"@,
            UpgradeEvent::FetchingPackages => "fetching updated packages for the current release"@,
            UpgradeEvent::FetchingPackagesForNewRelease =>
                "fetching updated packages for the new release"@,
            UpgradeEvent::FetchingAdditionalPackagesForNewRelease =>
                "fetching additional packages for the new release"@,
            UpgradeEvent::InstallingPackages =>
                "ensuring that system-critical packages are installed"@,
            UpgradeEvent::RemovingConflicts => "removing deprecated and/or conflicting packages"@,
            UpgradeEvent::Success => "new release is ready to install"@,
            UpgradeEvent::SuccessLive => "new release was successfully installed"@,
            UpgradeEvent::UpdatingPackageLists => "updating package lists"@,
            UpgradeEvent::UpdatingSourceLists => "updating the source lists"@,
            UpgradeEvent::UpgradingPackages => "upgrading packages for the current release"@,
            UpgradeEvent::Simulating => "simulating upgrade"@,
        }
    }

    pub fn as_str(self) -> (r: &'static str)
        ensures
            r@ == self.description(),
    {
        match self {
            UpgradeEvent::AptFilesLocked => "waiting on a process holding the apt lock files",
            UpgradeEvent::AttemptingLiveUpgrade => "attempting live upgrade to the new release",
            UpgradeEvent::AttemptingSystemdUnit => {
                "setting up the system to perform an offline upgrade on the next boot"
            },
            UpgradeEvent::AttemptingRecovery => {
                "setting up the recovery partition to install the new release"
            },
            UpgradeEvent::Failure => "an error occurred while setting up the release upgrade",
            UpgradeEvent::FetchingPackages => "fetching updated packages for the current release",
            UpgradeEvent::FetchingPackagesForNewRelease => {
                "fetching updated packages for the new release"
            },
            UpgradeEvent::FetchingAdditionalPackagesForNewRelease => {
                "fetching additional packages for the new release"
            },
            UpgradeEvent::InstallingPackages => {
                "ensuring that system-critical packages are installed"
            },
            UpgradeEvent::RemovingConflicts => "removing deprecated and/or conflicting packages",
            UpgradeEvent::Success => "new release is ready to install",
            UpgradeEvent::SuccessLive => "new release was successfully installed",
            UpgradeEvent::UpdatingPackageLists => "updating package lists",
            UpgradeEvent::UpdatingSourceLists => "updating the source lists",
            UpgradeEvent::UpgradingPackages => "upgrading packages for the current release",
            UpgradeEvent::Simulating => "simulating upgrade",
        }
    }
}

// ---------------------------------------------------------------------------
// Versions and codenames
// ---------------------------------------------------------------------------

/// The codename that a version string names, or the string itself when it names none.
pub open spec fn spec_codename_from_version(version: Seq<char>) -> Seq<char> {
    match parse_version(version) {
        ParsedVersion::Version(v) => match Codename::spec_from_numbers(v.major, v.minor) {
            Some(c) => c.name(),
            None => version,
        },
        _ => version,
    }
}

/// The codename of a release given by its version (`20.04` becomes `focal`); text that is not
/// the version of a known release is kept as it is.
pub fn codename_from_version(version: &str) -> (r: String)
    ensures
        r@ == spec_codename_from_version(version@),
{
    match Version::parse(version) {
        Ok(v) => match Codename::from_version(v) {
            Some(c) => string_of(&chars_of(c.as_str())),
            None => string_of(&chars_of(version)),
        },
        Err(_) => string_of(&chars_of(version)),
    }
}

/// The contents of the startup upgrade file: the codenames of the release upgraded from and
/// to, separated by a space.
pub fn upgrade_set_contents(from: &str, to: &str) -> (r: String)
    ensures
        r@ == spec_codename_from_version(from@) + seq![' '] + spec_codename_from_version(to@),
{
    let mut out = chars_of(codename_from_version(from).as_str());
    out.push(' ');
    extend(&mut out, &chars_of(codename_from_version(to).as_str()));
    string_of(&out)
}

/// The additional packages that a release upgrade to `to` fetches: `gnome-online-accounts-gtk`
/// for 24.04, none otherwise.
pub fn additional_packages(to: &str) -> (r: Vec<&'static str>)
    ensures
        to@ == "24.04"@ ==> r@.len() == 1 && r@[0]@ == "gnome-online-accounts-gtk"@,
        to@ != "24.04"@ ==> r@.len() == 0,
{
    let mut r: Vec<&'static str> = Vec::new();
    if chars_eq(&chars_of(to), &chars_of("24.04")) {
        r.push("gnome-online-accounts-gtk");
    }
    r
}

// ---------------------------------------------------------------------------
// Packages
// ---------------------------------------------------------------------------

/// Packages which should be removed before upgrading.
pub open spec fn spec_remove_packages() -> Seq<Seq<char>> {
    seq![
        "irqbalance"@,
        "ureadahead"@,
        "backport-iwlwifi-dkms"@,
        "update-notifier-common"@,
        "nodejs"@,
        "ttf-mscorefonts-installer"@,
    ]
}

/// Packages which should be removed before upgrading.
///
/// - `gnome-software` conflicts with `pop-desktop` and its `sessioninstaller` dependency
/// - `ureadahead` was deprecated and removed from the repositories
/// - `update-notifier-common` breaks debconf and it's not part of a Pop install
/// - `nodejs` may have some dependencies which are unmet on 22.04
pub fn remove_packages() -> (r: Vec<&'static str>)
    ensures
        r@.len() == spec_remove_packages().len(),
        forall|i: int| 0 <= i < r@.len() ==> #[trigger] r@[i]@ == spec_remove_packages()[i],
{
    let r = vec![
        "irqbalance",
        "ureadahead",
        "backport-iwlwifi-dkms",
        "update-notifier-common",
        "nodejs",
        "ttf-mscorefonts-installer",
    ];
    r
}

/// Packages which should be installed before upgrading.
///
/// - `linux-generic` because some systems may have a different kernel installed
/// - `pop-desktop` because it pulls in all of our required desktop dependencies
/// - `sessioninstaller` because it may have been removed by `gnome-software`
pub fn core_packages(aarch64: bool) -> (r: Vec<&'static str>)
    ensures
        aarch64 ==> r@.len() == 1 && r@[0]@ == "pop-desktop-raspi"@,
        !aarch64 ==> r@.len() == 3 && r@[0]@ == "linux-generic"@ && r@[1]@ == "pop-desktop"@
            && r@[2]@ == "sessioninstaller"@,
{
    if aarch64 {
        vec!["pop-desktop-raspi"]
    } else {
        vec!["linux-generic", "pop-desktop", "sessioninstaller"]
    }
}

/// The packages to remove as conflicting: those of the removal list that are installed, then
/// the packages that no repository provides, except `sentinelagent`.
pub open spec fn spec_conflicting_packages(installed: Seq<Seq<char>>, remoteless: Seq<Seq<char>>) -> Seq<
    Seq<char>,
> {
    installed + remoteless.filter(|p: Seq<char>| p != "sentinelagent"@)
}

/// The packages to remove as conflicting before the upgrade.
pub fn conflicting_packages(installed: &Vec<String>, remoteless: &Vec<String>) -> (r: Vec<String>)
    ensures
        string_views(r@) == spec_conflicting_packages(string_views(installed@), string_views(remoteless@)),
{
    let mut r: Vec<String> = Vec::new();
    let mut i: usize = 0;
    while i < installed.len()
        invariant
            i <= installed.len(),
            string_views(r@) == string_views(installed@).take(i as int),
        decreases installed.len() - i,
    {
        let ghost old_r = r@;
        r.push(string_of(&chars_of(installed[i].as_str())));
        assert(string_views(r@) =~= string_views(old_r).push(installed@[i as int]@));
        assert(string_views(installed@).take(i + 1) =~= string_views(installed@).take(
            i as int,
        ).push(installed@[i as int]@));
        i = i + 1;
    }
    assert(string_views(installed@).take(installed.len() as int) =~= string_views(installed@));
    let ghost pred = |p: Seq<char>| p != "sentinelagent"@;
    let sentinel = chars_of("sentinelagent");
    let mut j: usize = 0;
    while j < remoteless.len()
        invariant
            j <= remoteless.len(),
            sentinel@ == "sentinelagent"@,
            pred == (|p: Seq<char>| p != "sentinelagent"@),
            string_views(r@) == string_views(installed@) + string_views(remoteless@).take(
                j as int,
            ).filter(pred),
        decreases remoteless.len() - j,
    {
        let ghost old_r = r@;
        let name = chars_of(remoteless[j].as_str());
        assert(string_views(remoteless@).take(j + 1).drop_last() =~= string_views(
            remoteless@,
        ).take(j as int));
        proof {
            reveal_with_fuel(Seq::<_>::filter, 1);
        }
        assert(string_views(remoteless@).take(j + 1).last() == name@);
        if !chars_eq(&name, &sentinel) {
            r.push(string_of(&name));
            assert(string_views(r@) =~= string_views(old_r).push(name@));
        }
        j = j + 1;
    }
    assert(string_views(remoteless@).take(remoteless.len() as int) =~= string_views(remoteless@));
    r
}

/// The name of a running program's executable, with the ` (deleted)` marker that the kernel
/// adds for replaced executables removed.
pub open spec fn spec_exe_name(exe: Seq<char>) -> Seq<char> {
    if has_suffix(exe, " (deleted)"@) {
        exe.take(exe.len() - 10)
    } else {
        exe
    }
}

/// Whether a running executable is the elementary AppCenter, which fights over the dpkg lock
/// and is terminated before an upgrade.
pub fn is_appcenter(exe: &str) -> (r: bool)
    ensures
        r == (spec_exe_name(exe@) == "io.elementary.appcenter"@),
{
    let v = chars_of(exe);
    let suffix = chars_of(" (deleted)");
    proof {
        reveal_strlit(" (deleted)");
    }
    let name = if ends_with(&v, &suffix) {
        slice(&v, 0, v.len() - 10)
    } else {
        v
    };
    chars_eq(&name, &chars_of("io.elementary.appcenter"))
}

// ---------------------------------------------------------------------------
// Downgrades
// ---------------------------------------------------------------------------

pub open spec fn contains(s: Seq<char>, p: Seq<char>) -> bool {
    find(s, p) is Some
}

/// A package that the upgrade daemon never downgrades: itself and the system updater.
pub open spec fn is_protected(package: Seq<char>) -> bool {
    contains(package, "pop-upgrade"@) || contains(package, "pop-system-updater"@)
}

/// `ansible-core` from Ubuntu 22.04, which conflicts with `ansible`.
pub open spec fn is_jammy_ansible_core(package: Seq<char>, version: Seq<char>) -> bool {
    contains(package, "ansible-core"@) && contains(version, "2.12"@)
}

pub open spec fn has_ansible(downgradable: Seq<(Seq<char>, Seq<char>)>) -> bool {
    exists|i: int| 0 <= i < downgradable.len() && #[trigger] downgradable[i].0 == "ansible"@
}

/// What happens to one downgradable package.
pub enum DowngradeStep {
    /// The daemon's own packages are left alone.
    Protected,
    /// `ansible-core` from 22.04 is removed rather than downgraded, as `ansible` is downgraded.
    RemoveAnsibleCore,
    /// The package is downgraded to this version.
    Downgrade(Seq<char>),
    /// The version text holds no version.
    NoVersion,
}

/// The first ASCII-whitespace-separated word of a text.
pub open spec fn first_ascii_word(s: Seq<char>) -> Option<Seq<char>> {
    if ascii_words(s).len() > 0 {
        Some(ascii_words(s)[0])
    } else {
        None
    }
}

/// The decision for the package `(package, version)` among `downgradable`.
pub open spec fn spec_downgrade_step(
    downgradable: Seq<(Seq<char>, Seq<char>)>,
    package: Seq<char>,
    version: Seq<char>,
) -> DowngradeStep {
    if is_protected(package) {
        DowngradeStep::Protected
    } else if is_jammy_ansible_core(package, version) && has_ansible(downgradable) {
        DowngradeStep::RemoveAnsibleCore
    } else {
        match first_ascii_word(version) {
            Some(w) => DowngradeStep::Downgrade(w),
            None => DowngradeStep::NoVersion,
        }
    }
}

/// Papirus's elementary variant must be removed prior to downgrading the main package.
pub open spec fn removes_epapirus(package: Seq<char>) -> bool {
    !is_protected(package) && contains(package, "papirus-icon-theme"@)
}

/// The commands that downgrading packages runs, in order.
pub struct DowngradePlan {
    /// Packages removed (with `apt-get remove`) before the downgrade, in order.
    pub removals: Vec<String>,
    /// `package=version` arguments of the final `apt-get install`.
    pub installs: Vec<String>,
}

/// The removals for the first `n` downgradable packages.
pub open spec fn removals_of(downgradable: Seq<(Seq<char>, Seq<char>)>, n: int) -> Seq<Seq<char>>
    decreases n,
{
    if n <= 0 {
        seq![]
    } else {
        let prev = removals_of(downgradable, n - 1);
        let (p, v) = downgradable[n - 1];
        let with_papirus = if removes_epapirus(p) {
            prev.push("epapirus-icon-theme"@)
        } else {
            prev
        };
        match spec_downgrade_step(downgradable, p, v) {
            DowngradeStep::RemoveAnsibleCore => with_papirus.push("ansible-core"@),
            _ => with_papirus,
        }
    }
}

/// The install arguments for the first `n` downgradable packages.
pub open spec fn installs_of(downgradable: Seq<(Seq<char>, Seq<char>)>, n: int) -> Seq<Seq<char>>
    decreases n,
{
    if n <= 0 {
        seq![]
    } else {
        let prev = installs_of(downgradable, n - 1);
        let (p, v) = downgradable[n - 1];
        match spec_downgrade_step(downgradable, p, v) {
            DowngradeStep::Downgrade(w) => prev.push(p + "="@ + w),
            _ => prev,
        }
    }
}

pub open spec fn pair_views(v: Seq<(String, String)>) -> Seq<(Seq<char>, Seq<char>)> {
    v.map_values(|p: (String, String)| (p.0@, p.1@))
}

fn contains_exec(s: &Vec<char>, p: &str) -> (r: bool)
    ensures
        r == contains(s@, p@),
{
    let pat = chars_of(p);
    proof {
        crate::text::lemma_find_from_props(s@, pat@, 0);
    }
    match find_at(s, &pat, 0) {
        Some(_) => true,
        None => false,
    }
}

fn has_ansible_exec(downgradable: &Vec<(String, String)>) -> (r: bool)
    ensures
        r == has_ansible(pair_views(downgradable@)),
{
    let ansible = chars_of("ansible");
    let mut i: usize = 0;
    while i < downgradable.len()
        invariant
            i <= downgradable.len(),
            ansible@ == "ansible"@,
            forall|k: int|
                0 <= k < i ==> #[trigger] pair_views(downgradable@)[k].0 != "ansible"@,
        decreases downgradable.len() - i,
    {
        assert(pair_views(downgradable@)[i as int].0 == downgradable@[i as int].0@);
        if chars_eq(&chars_of(downgradable[i].0.as_str()), &ansible) {
            return true;
        }
        i = i + 1;
    }
    false
}

/// Which packages to remove before downgrading, and which versions to downgrade to, for the
/// `(package, version)` pairs that apt reports as newer than the repositories hold.
pub fn downgrade_plan(downgradable: &Vec<(String, String)>) -> (plan: DowngradePlan)
    ensures
        string_views(plan.removals@) == removals_of(
            pair_views(downgradable@),
            downgradable@.len() as int,
        ),
        string_views(plan.installs@) == installs_of(
            pair_views(downgradable@),
            downgradable@.len() as int,
        ),
{
    let ghost d = pair_views(downgradable@);
    let ansible_present = has_ansible_exec(downgradable);
    let mut removals: Vec<String> = Vec::new();
    let mut installs: Vec<String> = Vec::new();
    let mut i: usize = 0;
    while i < downgradable.len()
        invariant
            i <= downgradable.len(),
            d == pair_views(downgradable@),
            ansible_present == has_ansible(d),
            string_views(removals@) == removals_of(d, i as int),
            string_views(installs@) == installs_of(d, i as int),
        decreases downgradable.len() - i,
    {
        let ghost old_r = removals@;
        let ghost old_i = installs@;
        let package = chars_of(downgradable[i].0.as_str());
        let version = chars_of(downgradable[i].1.as_str());
        assert(d[i as int] == (package@, version@));
        let protected = contains_exec(&package, "pop-upgrade") || contains_exec(
            &package,
            "pop-system-updater",
        );
        if !protected {
            let papirus = contains_exec(&package, "papirus-icon-theme");
            let words = split_ascii_words(&version);
            if papirus {
                removals.push(string_of(&chars_of("epapirus-icon-theme")));
                assert(string_views(removals@) =~= string_views(old_r).push(
                    "epapirus-icon-theme"@,
                ));
            }
            let ghost mid_r = removals@;
            if contains_exec(&package, "ansible-core") && contains_exec(&version, "2.12")
                && ansible_present {
                removals.push(string_of(&chars_of("ansible-core")));
                assert(string_views(removals@) =~= string_views(mid_r).push("ansible-core"@));
            } else if words.len() > 0 {
                assert(views(words@)[0] == words@[0]@);
                let mut arg = package;
                let eq = chars_of("=");
                extend(&mut arg, &eq);
                extend(&mut arg, &words[0]);
                installs.push(string_of(&arg));
                assert(string_views(installs@) =~= string_views(old_i).push(arg@));
            }
        }
        i = i + 1;
    }
    DowngradePlan { removals, installs }
}

/// The daemon never downgrades itself nor the system updater: every install argument is
/// `package=version` for a package of the list that is not protected.
pub proof fn law_protected_never_downgraded(
    downgradable: Seq<(Seq<char>, Seq<char>)>,
    n: int,
    i: int,
) -> (kw: (int, Seq<char>))
    requires
        0 <= n <= downgradable.len(),
        0 <= i < installs_of(downgradable, n).len(),
    ensures
        0 <= kw.0 < n,
        !is_protected(downgradable[kw.0].0),
        installs_of(downgradable, n)[i] == downgradable[kw.0].0 + "="@ + kw.1,
    decreases n,
{
    let prev = installs_of(downgradable, n - 1);
    let (p, v) = downgradable[n - 1];
    if i < prev.len() {
        law_protected_never_downgraded(downgradable, n - 1, i)
    } else {
        match spec_downgrade_step(downgradable, p, v) {
            DowngradeStep::Downgrade(w) => (n - 1, w),
            _ => (0, seq![]),
        }
    }
}

/// Without `ansible` among the downgradable packages, nothing is removed but Papirus's
/// elementary variant: `ansible-core` is never removed, and every package that is not
/// protected and whose version text holds a version `w` is downgraded to it with the install
/// argument `package=w`.
pub proof fn law_ansible_core_downgraded_without_ansible(
    downgradable: Seq<(Seq<char>, Seq<char>)>,
    n: int,
)
    requires
        0 <= n <= downgradable.len(),
        forall|j: int| 0 <= j < downgradable.len() ==> #[trigger] downgradable[j].0 != "ansible"@,
    ensures
        forall|i: int|
            0 <= i < removals_of(downgradable, n).len() ==> #[trigger] removals_of(
                downgradable,
                n,
            )[i] == "epapirus-icon-theme"@,
        !removals_of(downgradable, n).contains("ansible-core"@),
        forall|k: int|
            #![trigger downgradable[k]]
            0 <= k < n && !is_protected(downgradable[k].0) && first_ascii_word(
                downgradable[k].1,
            ) is Some ==> installs_of(downgradable, n).contains(
                downgradable[k].0 + "="@ + first_ascii_word(downgradable[k].1)->0,
            ),
    decreases n,
{
    reveal_strlit("epapirus-icon-theme");
    reveal_strlit("ansible-core");
    assert("epapirus-icon-theme"@.len() != "ansible-core"@.len());
    assert(!has_ansible(downgradable));
    if n > 0 {
        law_ansible_core_downgraded_without_ansible(downgradable, n - 1);
        let prev_r = removals_of(downgradable, n - 1);
        let prev_i = installs_of(downgradable, n - 1);
        let (p, v) = downgradable[n - 1];
        let r = removals_of(downgradable, n);
        let ins = installs_of(downgradable, n);
        assert(!(spec_downgrade_step(downgradable, p, v) is RemoveAnsibleCore));
        assert forall|i: int| 0 <= i < r.len() implies #[trigger] r[i] == "epapirus-icon-theme"@ by {
            if i < prev_r.len() {
                assert(r[i] == prev_r[i]);
            }
        }
        if r.contains("ansible-core"@) {
            let i = choose|i: int| 0 <= i < r.len() && r[i] == "ansible-core"@;
            assert(r[i] == "epapirus-icon-theme"@);
        }
        assert forall|k: int|
            #![trigger downgradable[k]]
            0 <= k < n && !is_protected(downgradable[k].0) && first_ascii_word(
                downgradable[k].1,
            ) is Some implies ins.contains(
                downgradable[k].0 + "="@ + first_ascii_word(downgradable[k].1)->0,
            ) by {
            let x = downgradable[k].0 + "="@ + first_ascii_word(downgradable[k].1)->0;
            if k < n - 1 {
                let i = choose|i: int| 0 <= i < prev_i.len() && prev_i[i] == x;
                assert(ins[i] == prev_i[i]);
            } else {
                assert(ins[ins.len() - 1] == x);
            }
        }
    }
}

// ---------------------------------------------------------------------------
// Fetching, holds and clean-up
// ---------------------------------------------------------------------------

/// The number of attempts at fetching a set of packages.
pub const FETCH_ATTEMPTS: u32 = 3;

/// What follows an attempt at fetching packages.
#[derive(Clone, Debug)]
pub enum FetchNext<T> {
    /// Fetch these requests again.
    Retry(Vec<T>),
    /// The fetch is over: every request was fetched.
    Done,
    /// The last attempt still left these requests unfetched: the fetch fails with them.
    Incomplete(Vec<T>),
    /// The last attempt failed as a whole.
    Failed,
}

/// What follows attempt `attempt` (counted from 0) at fetching `requested`, given what it
/// returned: the requests that failed, or an error of the whole attempt. The fetch is done
/// only when no request failed. Failed requests are retried while attempts are left, and a
/// failed attempt is repeated as it was; after the last attempt, requests that still failed
/// make the fetch fail with them.
pub fn fetch_attempt_outcome<T>(attempt: u32, requested: Vec<T>, result: Result<Vec<T>, ()>) -> (r:
    FetchNext<T>)
    requires
        attempt < FETCH_ATTEMPTS,
    ensures
        match result {
            Ok(errored) => if errored@.len() == 0 {
                r is Done
            } else if attempt + 1 < FETCH_ATTEMPTS {
                r matches FetchNext::Retry(again) && again@ == errored@
            } else {
                r matches FetchNext::Incomplete(missing) && missing@ == errored@
            },
            Err(()) => if attempt + 1 < FETCH_ATTEMPTS {
                r matches FetchNext::Retry(again) && again@ == requested@
            } else {
                r is Failed
            },
        },
{
    let last = attempt + 1 >= FETCH_ATTEMPTS;
    match result {
        Ok(errored) => {
            if errored.len() == 0 {
                FetchNext::Done
            } else if last {
                FetchNext::Incomplete(errored)
            } else {
                FetchNext::Retry(errored)
            }
        },
        Err(()) => {
            if last {
                FetchNext::Failed
            } else {
                FetchNext::Retry(requested)
            }
        },
    }
}

/// The packages that a list names, one per line (as `apt-mark showhold` prints them, and as
/// the record of held transitional snap packages holds them).
pub fn package_lines(text: &str) -> (r: Vec<String>)
    ensures
        string_views(r@) == lines(text@),
{
    let ls = split_lines(&chars_of(text));
    let mut r: Vec<String> = Vec::new();
    let mut i: usize = 0;
    while i < ls.len()
        invariant
            i <= ls.len(),
            views(ls@) == lines(text@),
            string_views(r@) == views(ls@).take(i as int),
        decreases ls.len() - i,
    {
        let ghost old_r = r@;
        r.push(string_of(&ls[i]));
        assert(string_views(r@) =~= string_views(old_r).push(ls@[i as int]@));
        assert(views(ls@).take(i + 1) =~= views(ls@).take(i as int).push(ls@[i as int]@));
        i = i + 1;
    }
    assert(views(ls@).take(ls.len() as int) =~= views(ls@));
    r
}

/// The marker of an interrupted upgrade that start-up cleans after: the release fetch file,
/// else the startup upgrade file, if either exists.
pub fn interrupted_upgrade_marker(release_fetch_exists: bool, startup_upgrade_exists: bool) -> (r:
    Option<&'static str>)
    ensures
        release_fetch_exists ==> (r matches Some(f) && f@ == RELEASE_FETCH_FILE@),
        !release_fetch_exists && startup_upgrade_exists ==> (r matches Some(f) && f@
            == STARTUP_UPGRADE_FILE@),
        !release_fetch_exists && !startup_upgrade_exists ==> r is None,
{
    if release_fetch_exists {
        Some(RELEASE_FETCH_FILE)
    } else if startup_upgrade_exists {
        Some(STARTUP_UPGRADE_FILE)
    } else {
        None
    }
}

/// Packages fetched beside the upgrade of the installed ones.
pub enum ExtraPackages {
    Static(Vec<&'static str>),
    Dynamic(Vec<String>),
}

/// The names of extra packages.
pub open spec fn extra_names(packages: ExtraPackages) -> Seq<Seq<char>> {
    match packages {
        ExtraPackages::Static(p) => p@.map_values(|n: &'static str| n@),
        ExtraPackages::Dynamic(p) => string_views(p@),
    }
}

/// The arguments of the `apt-get --print-uris` call for extra packages: `install` when
/// their dependencies are wanted, `download` otherwise, then the packages. `None` when no
/// such call is made: without extra packages, or with an empty list of named ones.
pub fn extra_fetch_args(packages: &Option<ExtraPackages>, dependencies: bool) -> (r: Option<
    Vec<String>,
>)
    ensures
        match packages {
            None => r is None,
            Some(ExtraPackages::Dynamic(p)) if p@.len() == 0 => r is None,
            Some(extra) => r matches Some(args) && string_views(args@) == seq![
                if dependencies {
                    "install"@
                } else {
                    "download"@
                },
            ] + extra_names(*extra),
        },
{
    let extra = match packages {
        None => return None,
        Some(extra) => extra,
    };
    let mut args: Vec<String> = Vec::new();
    args.push(string_of(&chars_of(if dependencies {
        "install"
    } else {
        "download"
    })));
    let ghost first = string_views(args@);
    match extra {
        ExtraPackages::Static(p) => {
            let mut i: usize = 0;
            while i < p.len()
                invariant
                    i <= p.len(),
                    string_views(args@) == first + p@.map_values(|n: &'static str| n@).take(
                        i as int,
                    ),
                decreases p.len() - i,
            {
                let ghost old_a = args@;
                args.push(string_of(&chars_of(p[i])));
                assert(string_views(args@) =~= string_views(old_a).push(p@[i as int]@));
                assert(p@.map_values(|n: &'static str| n@).take(i + 1) =~= p@.map_values(
                    |n: &'static str| n@,
                ).take(i as int).push(p@[i as int]@));
                i = i + 1;
            }
            assert(p@.map_values(|n: &'static str| n@).take(p.len() as int) =~= p@.map_values(
                |n: &'static str| n@,
            ));
        },
        ExtraPackages::Dynamic(p) => {
            if p.len() == 0 {
                return None;
            }
            let mut i: usize = 0;
            while i < p.len()
                invariant
                    i <= p.len(),
                    string_views(args@) == first + string_views(p@).take(i as int),
                decreases p.len() - i,
            {
                let ghost old_a = args@;
                args.push(string_of(&chars_of(p[i].as_str())));
                assert(string_views(args@) =~= string_views(old_a).push(p@[i as int]@));
                assert(string_views(p@).take(i + 1) =~= string_views(p@).take(i as int).push(
                    p@[i as int]@,
                ));
                i = i + 1;
            }
            assert(string_views(p@).take(p.len() as int) =~= string_views(p@));
        },
    }
    Some(args)
}

/// What the switch of the apt sources to the new release leads to.
#[derive(Clone, Debug)]
pub enum SourcesUpdate {
    /// The sources of the new release are in place and their lists were updated.
    Done,
    /// The update failed: the source lists of `release` (the codename upgraded from) are
    /// restored, and the upgrade fails with `why`.
    RestoreAndFail { release: String, why: String },
}

/// The outcome of switching the sources from the release `current` (a version) to the next:
/// a failure restores the sources of `current` and ends the upgrade with that failure.
pub fn sources_update_outcome(current: &str, update: Result<(), String>) -> (r: SourcesUpdate)
    ensures
        match update {
            Ok(()) => r is Done,
            Err(why) => r matches SourcesUpdate::RestoreAndFail { release, why: w } && release@
                == spec_codename_from_version(current@) && w == why,
        },
{
    match update {
        Ok(()) => SourcesUpdate::Done,
        Err(why) => SourcesUpdate::RestoreAndFail { release: codename_from_version(current), why },
    }
}

/// The release whose source lists start-up restores after an interrupted upgrade: the one
/// installed, when a marker of an interrupted upgrade was found and the installed version
/// could be detected (`None` otherwise). The installed version must be a known release.
pub fn cleanup_restore(marker_found: bool, detected: Option<Version>) -> (r: Option<Codename>)
    requires
        marker_found ==> (detected matches Some(v) ==> Codename::spec_from_numbers(v.major, v.minor)
            is Some),
    ensures
        r == (if marker_found {
            match detected {
                Some(v) => Codename::spec_from_numbers(v.major, v.minor),
                None => None,
            }
        } else {
            None
        }),
{
    if !marker_found {
        return None;
    }
    match detected {
        Some(v) => Codename::from_version(v),
        None => None,
    }
}

} // verus!
