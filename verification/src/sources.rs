//! Apt source lists: the default lists of each release, backing them up and restoring them,
//! and disabling third-party repositories.

use vstd::prelude::*;

use crate::text::{
    chars_of, chars_eq, find, find_at, has_prefix, is_whitespace, lemma_find_from_props,
    lines, slice, split_lines, starts_with, string_of, string_views, trim_start, trimmed_start, views, lemma_find_first_bounds, lemma_find_first_is, lemma_lines_append,
    lemma_lines_no_newline, lemma_lines_one, no_newline, non_whitespace_index, non_whitespace_pred,
    strip_cr,
};

verus! {

pub const SOURCES_LIST: &'static str = "/etc/apt/sources.list";

pub const SOURCES_LIST_SAVE: &'static str = "/etc/apt/sources.list.save";

pub const PPA_DIR: &'static str = "/etc/apt/sources.list.d/";

pub const SYSTEM_SOURCES: &'static str = "/etc/apt/sources.list.d/system.sources";

pub const PROPRIETARY_SOURCES: &'static str = "/etc/apt/sources.list.d/pop-os-apps.sources";

pub const GROOVY_PPA: &'static str = "/etc/apt/sources.list.d/pop-os-ppa.list";

pub const PPA_SOURCES: &'static str = "/etc/apt/sources.list.d/pop-os-ppa.sources";

pub const IMPISH_RELEASE: &'static str = "/etc/apt/sources.list.d/pop-os-release.sources";

pub const PREFERENCES: &'static str = "/etc/apt/preferences.d/pop-default-settings";

/// Source lists that restoring removes before the backups are put back.
pub const REMOVE_LIST: [&'static str; 5] = [
    SYSTEM_SOURCES,
    PROPRIETARY_SOURCES,
    GROOVY_PPA,
    IMPISH_RELEASE,
    PPA_SOURCES,
];

/// Apt preferences for Bionic through Hirsute
pub const PREFERENCES_BIONIC: &'static str = "Package: *\nPin: release o=LP-PPA-system76-pop\nPin-Priority: 1001\n\nPackage: *\nPin: release o=LP-PPA-system76-proposed\nPin-Priority: 1001\n";

/// Apt preferences for Impish and beyond
pub const PREFERENCES_IMPISH: &'static str = "Package: *\nPin: release o=pop-os-release\nPin-Priority: 1001\n";

fn push_str(s: &mut String, t: &str)
    ensures
        final(s)@ == old(s)@ + t@,
{
    s.append(t);
}

fn owned(t: &str) -> (r: String)
    ensures
        r@ == t@,
{
    let mut r = String::new();
    push_str(&mut r, t);
    assert(r@ =~= t@);
    r
}

fn text_eq(a: &str, b: &str) -> (r: bool)
    ensures
        r == (a@ == b@),
{
    chars_eq(&chars_of(a), &chars_of(b))
}

// ---------------------------------------------------------------------------
// The default source lists
// ---------------------------------------------------------------------------

/// Where Ubuntu's packages come from: the ports archive on ARM, the US archive elsewhere.
pub open spec fn spec_ubuntu_uri(aarch64: bool) -> Seq<char> {
    if aarch64 {
        "ports.ubuntu.com/ubuntu-ports"@
    } else {
        "us.archive.ubuntu.com/ubuntu"@
    }
}

pub fn ubuntu_uri(aarch64: bool) -> (r: &'static str)
    ensures
        r@ == spec_ubuntu_uri(aarch64),
{
    if aarch64 {
        "ports.ubuntu.com/ubuntu-ports"
    } else {
        "us.archive.ubuntu.com/ubuntu"
    }
}

pub open spec fn spec_system_sources(release: Seq<char>, aarch64: bool) -> Seq<char> {
    let uri = if aarch64 {
        spec_ubuntu_uri(aarch64)
    } else {
        "apt.pop-os.org/ubuntu"@
    };
    "X-Repolib-Name: Pop_OS System Sources\nEnabled: yes\nTypes: deb deb-src\nURIs: http://"@ + uri
        + "\nSuites: "@ + release + " "@ + release + "-security "@ + release + "-updates "@
        + release + "-backports\nComponents: main restricted universe multiverse\nX-Repolib-Default-Mirror: http://"@
        + uri + "\n"@
}

/// The deb822 source of the Ubuntu repositories.
pub fn system_sources(release: &str, aarch64: bool) -> (r: String)
    ensures
        r@ == spec_system_sources(release@, aarch64),
{
    let uri = if aarch64 {
        ubuntu_uri(aarch64)
    } else {
        "apt.pop-os.org/ubuntu"
    };
    let mut r = owned(
        "X-Repolib-Name: Pop_OS System Sources\nEnabled: yes\nTypes: deb deb-src\nURIs: http://",
    );
    push_str(&mut r, uri);
    push_str(&mut r, "\nSuites: ");
    push_str(&mut r, release);
    push_str(&mut r, " ");
    push_str(&mut r, release);
    push_str(&mut r, "-security ");
    push_str(&mut r, release);
    push_str(&mut r, "-updates ");
    push_str(&mut r, release);
    push_str(
        &mut r,
        "-backports\nComponents: main restricted universe multiverse\nX-Repolib-Default-Mirror: http://",
    );
    push_str(&mut r, uri);
    push_str(&mut r, "\n");
    r
}

pub open spec fn spec_sources_list_placeholder() -> Seq<char> {
    "## This file is deprecated in Pop!_OS.\n## See `man deb822` and /etc/apt/sources.list.d/system.sources.\n"@
}

/// The contents of `/etc/apt/sources.list` on releases that use deb822 sources.
pub fn sources_list_placeholder() -> (r: String)
    ensures
        r@ == spec_sources_list_placeholder(),
{
    owned(
        "## This file is deprecated in Pop!_OS.\n## See `man deb822` and /etc/apt/sources.list.d/system.sources.\n",
    )
}

pub open spec fn spec_proprietary_sources(release: Seq<char>) -> Seq<char> {
    "X-Repolib-Name: Pop_OS Apps\nEnabled: yes\nTypes: deb\nURIs: http://apt.pop-os.org/proprietary\nSuites: "@
        + release + "\nComponents: main\n"@
}

/// The deb822 source of Pop's proprietary applications.
pub fn proprietary_sources(release: &str) -> (r: String)
    ensures
        r@ == spec_proprietary_sources(release@),
{
    let mut r = owned(
        "X-Repolib-Name: Pop_OS Apps\nEnabled: yes\nTypes: deb\nURIs: http://apt.pop-os.org/proprietary\nSuites: ",
    );
    push_str(&mut r, release);
    push_str(&mut r, "\nComponents: main\n");
    r
}

pub open spec fn spec_release_sources(release: Seq<char>) -> Seq<char> {
    "X-Repolib-Name: Pop_OS Release Sources\nEnabled: yes\nTypes: deb deb-src\nURIs: http://apt.pop-os.org/release\nSuites: "@
        + release + "\nComponents: main\n"@
}

/// The deb822 source of Pop's release repository.
pub fn release_sources(release: &str) -> (r: String)
    ensures
        r@ == spec_release_sources(release@),
{
    let mut r = owned(
        "X-Repolib-Name: Pop_OS Release Sources\nEnabled: yes\nTypes: deb deb-src\nURIs: http://apt.pop-os.org/release\nSuites: ",
    );
    push_str(&mut r, release);
    push_str(&mut r, "\nComponents: main\n");
    r
}

pub open spec fn spec_groovy_ppa(release: Seq<char>) -> Seq<char> {
    "## This file was generated by pop-upgrade\n#\n## X-Repolib-Name: Pop_OS PPA\ndeb http://ppa.launchpad.net/system76/pop/ubuntu "@
        + release + " main\ndeb-src http://ppa.launchpad.net/system76/pop/ubuntu "@ + release
        + " main\n"@
}

/// The one-line-style list of Pop's PPA, as used by Groovy and Hirsute.
pub fn groovy_ppa(release: &str) -> (r: String)
    ensures
        r@ == spec_groovy_ppa(release@),
{
    let mut r = owned(
        "## This file was generated by pop-upgrade\n#\n## X-Repolib-Name: Pop_OS PPA\ndeb http://ppa.launchpad.net/system76/pop/ubuntu ",
    );
    push_str(&mut r, release);
    push_str(&mut r, " main\ndeb-src http://ppa.launchpad.net/system76/pop/ubuntu ");
    push_str(&mut r, release);
    push_str(&mut r, " main\n");
    r
}

/// One `deb` and one `deb-src` line of the Ubuntu archive for a suite.
pub open spec fn ubuntu_pair(uri: Seq<char>, suite: Seq<char>) -> Seq<char> {
    "deb http://"@ + uri + " "@ + suite + " restricted multiverse universe main\ndeb-src http://"@
        + uri + " "@ + suite + " restricted multiverse universe main\n"@
}

pub open spec fn spec_sources_list_before_deb822(release: Seq<char>, aarch64: bool) -> Seq<char> {
    let uri = spec_ubuntu_uri(aarch64);
    "# Ubuntu Repositories\n\n"@ + ubuntu_pair(uri, release) + "\n"@ + ubuntu_pair(
        uri,
        release + "-updates"@,
    ) + "\n"@ + ubuntu_pair(uri, release + "-security"@) + "\n"@ + ubuntu_pair(
        uri,
        release + "-backports"@,
    ) + "\n# Pop!_OS Repositories\n\ndeb http://ppa.launchpad.net/system76/pop/ubuntu "@ + release
        + " main\ndeb-src http://ppa.launchpad.net/system76/pop/ubuntu "@ + release + " main\n"@ + (
    if aarch64 {
        seq![]
    } else {
        "deb http://apt.pop-os.org/proprietary "@ + release + " main"@
    })
}

fn push_ubuntu_pair(r: &mut String, uri: &str, release: &str, suffix: &str)
    ensures
        final(r)@ == old(r)@ + ubuntu_pair(uri@, release@ + suffix@),
{
    push_str(r, "deb http://");
    push_str(r, uri);
    push_str(r, " ");
    push_str(r, release);
    push_str(r, suffix);
    push_str(r, " restricted multiverse universe main\ndeb-src http://");
    push_str(r, uri);
    push_str(r, " ");
    push_str(r, release);
    push_str(r, suffix);
    push_str(r, " restricted multiverse universe main\n");
    assert(final(r)@ =~= old(r)@ + ubuntu_pair(uri@, release@ + suffix@));
}

/// The `/etc/apt/sources.list` of Bionic and Focal, which predate deb822 sources.
pub fn sources_list_before_deb822(release: &str, aarch64: bool) -> (r: String)
    ensures
        r@ == spec_sources_list_before_deb822(release@, aarch64),
{
    let uri = ubuntu_uri(aarch64);
    let mut r = owned("# Ubuntu Repositories\n\n");
    push_ubuntu_pair(&mut r, uri, release, "");
    proof {
        reveal_strlit("");
    }
    assert(release@ + ""@ =~= release@);
    push_str(&mut r, "\n");
    push_ubuntu_pair(&mut r, uri, release, "-updates");
    push_str(&mut r, "\n");
    push_ubuntu_pair(&mut r, uri, release, "-security");
    push_str(&mut r, "\n");
    push_ubuntu_pair(&mut r, uri, release, "-backports");
    push_str(&mut r, "\n# Pop!_OS Repositories\n\ndeb http://ppa.launchpad.net/system76/pop/ubuntu ");
    push_str(&mut r, release);
    push_str(&mut r, " main\ndeb-src http://ppa.launchpad.net/system76/pop/ubuntu ");
    push_str(&mut r, release);
    push_str(&mut r, " main\n");
    if !aarch64 {
        push_str(&mut r, "deb http://apt.pop-os.org/proprietary ");
        push_str(&mut r, release);
        push_str(&mut r, " main");
    }
    assert(r@ =~= spec_sources_list_before_deb822(release@, aarch64));
    r
}

/// The apt preferences of a release: Bionic, Focal and Hirsute pin the Launchpad PPAs,
/// later releases pin Pop's release repository.
pub open spec fn spec_preferences(release: Seq<char>) -> Seq<char> {
    if release == "bionic"@ || release == "focal"@ || release == "hirsute"@ {
        PREFERENCES_BIONIC@
    } else {
        PREFERENCES_IMPISH@
    }
}

/// The system sources of a release name exactly its four suites, on one line of their own:
/// the release, its security updates, its updates and its backports. They come from Pop's
/// mirror of Ubuntu, or from Ubuntu's ports archive on ARM.
pub proof fn law_system_sources_suites(release: Seq<char>, aarch64: bool)
    ensures
        exists|after: Seq<char>|
            spec_system_sources(release, aarch64)
                == "X-Repolib-Name: Pop_OS System Sources\nEnabled: yes\nTypes: deb deb-src\nURIs: http://"@
                + (if aarch64 {
                "ports.ubuntu.com/ubuntu-ports"@
            } else {
                "apt.pop-os.org/ubuntu"@
            }) + #[trigger] ("\nSuites: "@ + after),
        exists|before: Seq<char>, after: Seq<char>|
            spec_system_sources(release, aarch64) == before + "\nSuites: "@ + release + " "@
                + release + "-security "@ + release + "-updates "@ + release + "-backports\n"@
                + after,
{
    let uri = if aarch64 {
        spec_ubuntu_uri(aarch64)
    } else {
        "apt.pop-os.org/ubuntu"@
    };
    let before = "X-Repolib-Name: Pop_OS System Sources\nEnabled: yes\nTypes: deb deb-src\nURIs: http://"@
        + uri;
    let after = "Components: main restricted universe multiverse\nX-Repolib-Default-Mirror: http://"@
        + uri + "\n"@;
    reveal_strlit("-backports\nComponents: main restricted universe multiverse\nX-Repolib-Default-Mirror: http://");
    reveal_strlit("-backports\n");
    reveal_strlit("Components: main restricted universe multiverse\nX-Repolib-Default-Mirror: http://");
    assert("-backports\nComponents: main restricted universe multiverse\nX-Repolib-Default-Mirror: http://"@
        =~= "-backports\n"@
        + "Components: main restricted universe multiverse\nX-Repolib-Default-Mirror: http://"@);
    assert(spec_system_sources(release, aarch64) =~= before + "\nSuites: "@ + release + " "@
        + release + "-security "@ + release + "-updates "@ + release + "-backports\n"@ + after);
    let rest = release + " "@ + release + "-security "@ + release + "-updates "@ + release
        + "-backports\n"@ + after;
    assert(spec_system_sources(release, aarch64) =~= before + ("\nSuites: "@ + rest));
}

/// Bionic, Focal and Hirsute take their Pop packages from the Launchpad PPAs of System76,
/// so their preferences pin those PPAs; every other release pins Pop's own release
/// repository.
pub proof fn law_preferences_pin_the_release_repository(release: Seq<char>)
    ensures
        (release == "bionic"@ || release == "focal"@ || release == "hirsute"@) ==> spec_preferences(
            release,
        ) == PREFERENCES_BIONIC@,
        !(release == "bionic"@ || release == "focal"@ || release == "hirsute"@) ==> spec_preferences(
            release,
        ) == PREFERENCES_IMPISH@,
        exists|before: Seq<char>, after: Seq<char>|
            PREFERENCES_BIONIC@ == before + "Pin: release o=LP-PPA-system76-pop\n"@ + after,
        exists|before: Seq<char>, after: Seq<char>|
            PREFERENCES_IMPISH@ == before + "Pin: release o=pop-os-release\n"@ + after,
{
    reveal_strlit("Package: *\nPin: release o=LP-PPA-system76-pop\nPin-Priority: 1001\n\nPackage: *\nPin: release o=LP-PPA-system76-proposed\nPin-Priority: 1001\n");
    reveal_strlit("Package: *\nPin: release o=pop-os-release\nPin-Priority: 1001\n");
    reveal_strlit("Pin: release o=LP-PPA-system76-pop\n");
    reveal_strlit("Pin: release o=pop-os-release\n");
    reveal_strlit("Package: *\n");
    reveal_strlit("Pin-Priority: 1001\n\nPackage: *\nPin: release o=LP-PPA-system76-proposed\nPin-Priority: 1001\n");
    reveal_strlit("Pin-Priority: 1001\n");
    assert(PREFERENCES_BIONIC@ =~= "Package: *\n"@ + "Pin: release o=LP-PPA-system76-pop\n"@
        + "Pin-Priority: 1001\n\nPackage: *\nPin: release o=LP-PPA-system76-proposed\nPin-Priority: 1001\n"@);
    assert(PREFERENCES_IMPISH@ =~= "Package: *\n"@ + "Pin: release o=pop-os-release\n"@
        + "Pin-Priority: 1001\n"@);
}

/// The contents of Pop's apt preferences script for a release.
pub fn preferences_for(release: &str) -> (r: &'static str)
    ensures
        r@ == spec_preferences(release@),
{
    if text_eq(release, "bionic") || text_eq(release, "focal") || text_eq(release, "hirsute") {
        PREFERENCES_BIONIC
    } else {
        PREFERENCES_IMPISH
    }
}

/// The files that `apply_default_source_lists` writes and removes.
pub struct SourceListPlan {
    /// Files removed first (a missing file is not an error).
    pub removals: Vec<&'static str>,
    /// `(path, contents)` written in order.
    pub writes: Vec<(&'static str, String)>,
    /// Whether the `system76-ubuntu-pop` PPA lists are deleted afterwards.
    pub delete_system76_lists: bool,
}

/// What each kind of release gets: Bionic and Focal a classic `sources.list`; Groovy and
/// Hirsute deb822 system and application sources with the PPA list; later releases deb822
/// sources with Pop's release repository. Every release also gets its preferences.
pub open spec fn spec_plan_writes(release: Seq<char>, aarch64: bool) -> Seq<(Seq<char>, Seq<char>)> {
    let prefs = seq![(PREFERENCES@, spec_preferences(release))];
    if release == "bionic"@ || release == "focal"@ {
        seq![(SOURCES_LIST@, spec_sources_list_before_deb822(release, aarch64))] + prefs
    } else if release == "groovy"@ || release == "hirsute"@ {
        seq![
            (SOURCES_LIST@, spec_sources_list_placeholder()),
            (SYSTEM_SOURCES@, spec_system_sources(release, aarch64)),
            (PROPRIETARY_SOURCES@, spec_proprietary_sources(release)),
            (GROOVY_PPA@, spec_groovy_ppa(release)),
        ] + prefs
    } else {
        seq![
            (SOURCES_LIST@, spec_sources_list_placeholder()),
            (SYSTEM_SOURCES@, spec_system_sources(release, aarch64)),
            (PROPRIETARY_SOURCES@, spec_proprietary_sources(release)),
            (IMPISH_RELEASE@, spec_release_sources(release)),
        ] + prefs
    }
}

pub open spec fn spec_plan_removals(release: Seq<char>) -> Seq<Seq<char>> {
    if release == "bionic"@ || release == "focal"@ || release == "groovy"@ || release
        == "hirsute"@ {
        seq![]
    } else {
        seq![GROOVY_PPA@, PPA_SOURCES@]
    }
}

pub open spec fn write_views(w: Seq<(&'static str, String)>) -> Seq<(Seq<char>, Seq<char>)> {
    w.map_values(|p: (&'static str, String)| (p.0@, p.1@))
}

/// The source lists that make up the defaults of `release`.
pub fn default_source_lists(release: &str, aarch64: bool) -> (plan: SourceListPlan)
    ensures
        plan.removals@.map_values(|p: &'static str| p@) == spec_plan_removals(release@),
        write_views(plan.writes@) == spec_plan_writes(release@, aarch64),
        plan.delete_system76_lists == !(release@ == "bionic"@ || release@ == "focal"@),
{
    let mut removals: Vec<&'static str> = Vec::new();
    let mut writes: Vec<(&'static str, String)> = Vec::new();
    let old_style = text_eq(release, "bionic") || text_eq(release, "focal");
    let groovy = text_eq(release, "groovy") || text_eq(release, "hirsute");
    if old_style {
        writes.push((SOURCES_LIST, sources_list_before_deb822(release, aarch64)));
    } else if groovy {
        writes.push((SOURCES_LIST, sources_list_placeholder()));
        writes.push((SYSTEM_SOURCES, system_sources(release, aarch64)));
        writes.push((PROPRIETARY_SOURCES, proprietary_sources(release)));
        writes.push((GROOVY_PPA, groovy_ppa(release)));
    } else {
        removals.push(GROOVY_PPA);
        removals.push(PPA_SOURCES);
        writes.push((SOURCES_LIST, sources_list_placeholder()));
        writes.push((SYSTEM_SOURCES, system_sources(release, aarch64)));
        writes.push((PROPRIETARY_SOURCES, proprietary_sources(release)));
        writes.push((IMPISH_RELEASE, release_sources(release)));
    }
    writes.push((PREFERENCES, owned(preferences_for(release))));
    assert(removals@.map_values(|p: &'static str| p@) =~= spec_plan_removals(release@));
    assert(write_views(writes@) =~= spec_plan_writes(release@, aarch64));
    SourceListPlan { removals, writes, delete_system76_lists: !old_style }
}

// ---------------------------------------------------------------------------
// File names
// ---------------------------------------------------------------------------

/// The extension of a path, as `std::path::Path::extension` gives it.
pub uninterp spec fn std_path_extension(path: Seq<char>) -> Option<Seq<char>>;

/// The file name of a path, as `std::path::Path::file_name` gives it.
pub uninterp spec fn std_path_file_name(path: Seq<char>) -> Option<Seq<char>>;

/// A path that ends in `.save` after a character other than `/`: the name of a backup, as
/// [`backup_path`] makes it of a path that does not end in `/`.
pub open spec fn is_backup_name(p: Seq<char>) -> bool {
    p.len() >= 6 && p.subrange(p.len() - 5, p.len() as int) == ".save"@ && p[p.len() - 6] != '/'
}

/// `Path::new(path).extension()`.
///
/// Trusted: calls `std::path::Path::extension`, a function of the path text alone: the part
/// of the file name after its last `.`, so the path is longer than the extension. A path that
/// ends in `.save` after a character other than `/` has a last component that ends in `.save`
/// and holds a character before that dot, so its extension is `save` (std documents the
/// extension as the part of the file name after its final `.`, unless the name begins with
/// that `.`). How std splits other names is not restated here.
#[verifier::external_body]
fn path_extension(path: &str) -> (r: Option<String>)
    ensures
        match r {
            Some(e) => std_path_extension(path@) == Some(e@) && path@.len() >= e@.len() + 1,
            None => std_path_extension(path@) is None,
        },
        is_backup_name(path@) ==> r is Some && r.unwrap()@ == "save"@,
{
    std::path::Path::new(path).extension().map(|e| e.to_string_lossy().into_owned())
}

/// `Path::new(path).file_name()`.
///
/// Trusted: calls `std::path::Path::file_name`, a function of the path text alone (its last
/// normal component); how std splits the path is not restated here.
#[verifier::external_body]
pub(crate) fn path_file_name(path: &str) -> (r: Option<String>)
    ensures
        match r {
            Some(n) => std_path_file_name(path@) == Some(n@),
            None => std_path_file_name(path@) is None,
        },
{
    std::path::Path::new(path).file_name().map(|n| n.to_string_lossy().into_owned())
}

fn extension_is(path: &str, ext: &str) -> (r: bool)
    ensures
        r == (std_path_extension(path@) == Some(ext@)),
        r ==> path@.len() >= ext@.len() + 1,
        is_backup_name(path@) ==> std_path_extension(path@) == Some("save"@),
{
    match path_extension(path) {
        Some(e) => text_eq(e.as_str(), ext),
        None => false,
    }
}

/// Whether a path is a backup of a source list: its extension is `save`.
pub fn is_save_file(path: &str) -> (r: bool)
    ensures
        r == (std_path_extension(path@) == Some("save"@)),
        r ==> path@.len() >= 5,
        is_backup_name(path@) ==> r,
{
    proof {
        reveal_strlit("save");
    }
    extension_is(path, "save")
}

pub open spec fn contains(s: Seq<char>, p: Seq<char>) -> bool {
    find(s, p) is Some
}

fn contains_exec(s: &str, p: &str) -> (r: bool)
    ensures
        r == contains(s@, p@),
{
    let sc = chars_of(s);
    let pc = chars_of(p);
    proof {
        lemma_find_from_props(sc@, pc@, 0);
    }
    match find_at(&sc, &pc, 0) {
        Some(_) => true,
        None => false,
    }
}

/// The PPA lists that Pop's own sources replace: `.list` files whose name holds
/// `system76-ubuntu-pop`.
pub open spec fn spec_is_system76_list(path: Seq<char>) -> bool {
    std_path_extension(path) == Some("list"@) && match std_path_file_name(path) {
        Some(n) => contains(n, "system76-ubuntu-pop"@),
        None => false,
    }
}

pub fn is_system76_list(path: &str) -> (r: bool)
    ensures
        r == spec_is_system76_list(path@),
{
    if !extension_is(path, "list") {
        return false;
    }
    match path_file_name(path) {
        Some(n) => contains_exec(n.as_str(), "system76-ubuntu-pop"),
        None => false,
    }
}

/// What disabling third-party sources does with a file of the sources directory.
#[derive(Clone, Copy, Debug, PartialEq, Eq, Structural)]
pub enum ThirdPartyAction {
    /// A `.list` file: its `deb` lines are commented out.
    CommentOut,
    /// A `.sources` file that is not Pop's own: it is removed.
    Remove,
    /// Anything else is left alone.
    Keep,
}

pub open spec fn spec_third_party_action(path: Seq<char>) -> ThirdPartyAction {
    if std_path_extension(path) == Some("list"@) {
        ThirdPartyAction::CommentOut
    } else if std_path_extension(path) == Some("sources"@) {
        match std_path_file_name(path) {
            Some(n) => if has_prefix(n, "pop-os"@) || has_prefix(n, "system"@) {
                ThirdPartyAction::Keep
            } else {
                ThirdPartyAction::Remove
            },
            None => ThirdPartyAction::Keep,
        }
    } else {
        ThirdPartyAction::Keep
    }
}

/// What disabling third-party sources does with the file at `path`.
pub fn third_party_action(path: &str) -> (r: ThirdPartyAction)
    ensures
        r == spec_third_party_action(path@),
{
    if extension_is(path, "list") {
        ThirdPartyAction::CommentOut
    } else if extension_is(path, "sources") {
        match path_file_name(path) {
            Some(n) => {
                let name = chars_of(n.as_str());
                if starts_with(&name, &chars_of("pop-os")) || starts_with(
                    &name,
                    &chars_of("system"),
                ) {
                    ThirdPartyAction::Keep
                } else {
                    ThirdPartyAction::Remove
                }
            },
            None => ThirdPartyAction::Keep,
        }
    } else {
        ThirdPartyAction::Keep
    }
}

// ---------------------------------------------------------------------------
// Commenting out `deb` lines
// ---------------------------------------------------------------------------

/// `str::trim_end`: drops the trailing Unicode whitespace.
pub open spec fn trim_end(s: Seq<char>) -> Seq<char>
    decreases s.len(),
{
    if s.len() > 0 && is_whitespace(s.last()) {
        trim_end(s.drop_last())
    } else {
        s
    }
}

/// `str::trim`.
pub open spec fn trim(s: Seq<char>) -> Seq<char> {
    trim_end(trim_start(s))
}

/// A line of a disabled list: trimmed, and behind `# ` when it is a `deb` line.
pub open spec fn disabled_line(line: Seq<char>) -> Seq<char> {
    if has_prefix(trim(line), "deb"@) {
        "# "@ + trim(line) + seq!['\n']
    } else {
        trim(line) + seq!['\n']
    }
}

/// The disabled form of the first `n` lines.
pub open spec fn disabled_lines(ls: Seq<Seq<char>>, n: int) -> Seq<char>
    decreases n,
{
    if n <= 0 || n > ls.len() {
        seq![]
    } else {
        disabled_lines(ls, n - 1) + disabled_line(ls[n - 1])
    }
}

/// What `disable_third_parties` writes back to a `.list` file.
pub open spec fn spec_comment_out_debs(contents: Seq<char>) -> Seq<char> {
    disabled_lines(lines(contents), lines(contents).len() as int)
}

/// The index just after the last non-whitespace character of `v`, or 0.
fn trimmed_end_index(v: &Vec<char>) -> (r: usize)
    ensures
        r <= v.len(),
        v@.take(r as int) == trim_end(v@),
{
    let mut e = v.len();
    assert(v@.take(e as int) =~= v@);
    while e > 0 && crate::text::whitespace(v[e - 1])
        invariant
            e <= v.len(),
            trim_end(v@) == trim_end(v@.take(e as int)),
        decreases e,
    {
        assert(v@.take(e as int).drop_last() =~= v@.take(e - 1));
        e = e - 1;
    }
    proof {
        r_trim_end_stops(v@.take(e as int));
    }
    e
}

proof fn r_trim_end_stops(s: Seq<char>)
    requires
        s.len() == 0 || !is_whitespace(s.last()),
    ensures
        trim_end(s) == s,
{
}

fn trimmed(v: &Vec<char>) -> (r: Vec<char>)
    ensures
        r@ == trim(v@),
{
    let t = trimmed_start(v);
    let e = trimmed_end_index(&t);
    slice(&t, 0, e)
}

/// Text that is empty, or starts and ends with a character other than whitespace.
pub open spec fn is_trimmed(s: Seq<char>) -> bool {
    s.len() == 0 || (!is_whitespace(s[0]) && !is_whitespace(s.last()))
}

proof fn lemma_trim_start(s: Seq<char>)
    ensures
        non_whitespace_index(s) <= s.len(),
        trim_start(s) == s.skip(non_whitespace_index(s) as int),
        trim_start(s).len() > 0 ==> !is_whitespace(trim_start(s)[0]),
        s.len() > 0 && !is_whitespace(s[0]) ==> trim_start(s) == s,
{
    lemma_find_first_bounds(s, non_whitespace_pred());
    let i = non_whitespace_index(s);
    if i < s.len() {
        assert(non_whitespace_pred()(s[i as int]));
        assert(trim_start(s)[0] == s[i as int]);
    }
    if s.len() > 0 && !is_whitespace(s[0]) {
        lemma_find_first_is(s, non_whitespace_pred(), 0);
        assert(s.skip(0) =~= s);
    }
}

proof fn lemma_trim_end(s: Seq<char>)
    ensures
        trim_end(s).len() <= s.len(),
        trim_end(s) == s.take(trim_end(s).len() as int),
        trim_end(s).len() > 0 ==> !is_whitespace(trim_end(s).last()),
        s.len() > 0 && !is_whitespace(s[0]) ==> trim_end(s).len() > 0,
    decreases s.len(),
{
    if s.len() > 0 && is_whitespace(s.last()) {
        lemma_trim_end(s.drop_last());
        let t = trim_end(s.drop_last());
        assert(s.drop_last().take(t.len() as int) =~= s.take(t.len() as int));
        if s.len() > 1 && !is_whitespace(s[0]) {
            assert(s.drop_last()[0] == s[0]);
        }
    } else {
        assert(s.take(s.len() as int) =~= s);
    }
}

proof fn lemma_trim(s: Seq<char>)
    ensures
        is_trimmed(trim(s)),
        no_newline(s) ==> no_newline(trim(s)),
{
    lemma_trim_start(s);
    let t = trim_start(s);
    lemma_trim_end(t);
    let r = trim_end(t);
    if r.len() > 0 {
        assert(r[0] == t[0]);
    }
    if no_newline(s) {
        assert forall|k: int| 0 <= k < r.len() implies r[k] != '\n' by {
            assert(r[k] == t[k]);
            assert(t[k] == s[k + non_whitespace_index(s)]);
        }
    }
}

proof fn lemma_trim_trimmed(s: Seq<char>)
    requires
        is_trimmed(s),
    ensures
        trim(s) == s,
{
    lemma_trim_start(s);
    if s.len() == 0 {
        assert(trim_start(s) =~= s);
    }
}

/// A line of a disabled list, before its line feed.
pub open spec fn disabled_text(line: Seq<char>) -> Seq<char> {
    if has_prefix(trim(line), "deb"@) {
        "# "@ + trim(line)
    } else {
        trim(line)
    }
}

proof fn lemma_disabled_text(line: Seq<char>)
    ensures
        disabled_line(line) == disabled_text(line) + seq!['\n'],
        is_trimmed(disabled_text(line)),
        no_newline(line) ==> no_newline(disabled_text(line)),
        disabled_text(disabled_text(line)) == disabled_text(line),
{
    reveal_strlit("deb");
    reveal_strlit("# ");
    lemma_trim(line);
    let t = trim(line);
    let d = disabled_text(line);
    assert(disabled_line(line) =~= d + seq!['\n']);
    if has_prefix(t, "deb"@) {
        assert(d[0] == '#');
        assert(d.last() == t.last());
        assert(is_trimmed(d));
        lemma_trim_trimmed(d);
        assert(d.take(3)[0] == '#');
        assert(!has_prefix(d, "deb"@));
        if no_newline(line) {
            assert forall|k: int| 0 <= k < d.len() implies d[k] != '\n' by {
                if k >= 2 {
                    assert(d[k] == t[k - 2]);
                }
            }
        }
    } else {
        lemma_trim_trimmed(t);
    }
}

proof fn lemma_disabled_lines_end(ls: Seq<Seq<char>>, n: int)
    ensures
        disabled_lines(ls, n).len() == 0 || disabled_lines(ls, n).last() == '\n',
    decreases n,
{
    if n > 0 && n <= ls.len() {
        lemma_disabled_text(ls[n - 1]);
    }
}

/// The lines of a disabled list are the disabled lines.
proof fn lemma_lines_of_disabled(ls: Seq<Seq<char>>, n: int)
    requires
        0 <= n <= ls.len(),
        forall|i: int| 0 <= i < ls.len() ==> no_newline(#[trigger] ls[i]),
    ensures
        lines(disabled_lines(ls, n)) == Seq::new(n as nat, |i: int| disabled_text(ls[i])),
    decreases n,
{
    if n == 0 {
        assert(lines(Seq::<char>::empty()) =~= Seq::<Seq<char>>::empty());
        assert(Seq::new(0, |i: int| disabled_text(ls[i])) =~= Seq::<Seq<char>>::empty());
    } else {
        lemma_lines_of_disabled(ls, n - 1);
        lemma_disabled_lines_end(ls, n - 1);
        let x = ls[n - 1];
        lemma_disabled_text(x);
        let d = disabled_text(x);
        lemma_lines_append(disabled_lines(ls, n - 1), d + seq!['\n']);
        lemma_lines_one(d);
        assert(strip_cr(d) == d) by {
            if d.len() > 0 {
                assert(!is_whitespace(d.last()));
            }
        }
        assert(lines(disabled_lines(ls, n)) =~= Seq::new(n as nat, |i: int| disabled_text(ls[i])));
    }
}

/// Disabling lines that were disabled already changes nothing.
proof fn lemma_disable_again(ls: Seq<Seq<char>>, n: int)
    requires
        0 <= n <= ls.len(),
    ensures
        disabled_lines(Seq::new(ls.len(), |i: int| disabled_text(ls[i])), n) == disabled_lines(
            ls,
            n,
        ),
    decreases n,
{
    if n > 0 {
        lemma_disable_again(ls, n - 1);
        let m = Seq::new(ls.len(), |i: int| disabled_text(ls[i]));
        lemma_disabled_text(ls[n - 1]);
        lemma_disabled_text(m[n - 1]);
        assert(disabled_line(m[n - 1]) == disabled_line(ls[n - 1]));
    }
}

/// Commenting out the `deb` lines of a list whose `deb` lines were commented out changes
/// nothing more.
pub proof fn law_comment_out_debs_idempotent(contents: Seq<char>)
    ensures
        spec_comment_out_debs(spec_comment_out_debs(contents)) == spec_comment_out_debs(
            contents,
        ),
{
    let ls = lines(contents);
    let n = ls.len();
    lemma_lines_no_newline(contents);
    lemma_lines_of_disabled(ls, n as int);
    let m = Seq::new(n, |i: int| disabled_text(ls[i]));
    assert(lines(spec_comment_out_debs(contents)) == m);
    lemma_disable_again(ls, n as int);
}

/// Comments out the `deb` lines of a one-line-style list, trimming every line.
pub fn comment_out_debs(contents: &str) -> (r: String)
    ensures
        r@ == spec_comment_out_debs(contents@),
{
    let text = chars_of(contents);
    let ls = split_lines(&text);
    let mut out: Vec<char> = Vec::new();
    let deb = chars_of("deb");
    let mut k: usize = 0;
    while k < ls.len()
        invariant
            k <= ls.len(),
            views(ls@) == lines(contents@),
            deb@ == "deb"@,
            out@ == disabled_lines(views(ls@), k as int),
        decreases ls.len() - k,
    {
        assert(views(ls@)[k as int] == ls@[k as int]@);
        let t = trimmed(&ls[k]);
        if starts_with(&t, &deb) {
            out.push('#');
            out.push(' ');
            proof {
                reveal_strlit("# ");
            }
        }
        crate::text::extend(&mut out, &t);
        out.push('\n');
        assert(out@ =~= disabled_lines(views(ls@), k + 1));
        k = k + 1;
    }
    string_of(&out)
}

// ---------------------------------------------------------------------------
// Backing up and restoring
// ---------------------------------------------------------------------------

/// The backup of a source list is kept beside it with a `.save` extension.
pub open spec fn spec_backup_path(path: Seq<char>) -> Seq<char> {
    path + ".save"@
}

/// A backup is restored to its path without the `.save` extension.
pub open spec fn spec_restore_path(save_path: Seq<char>) -> Seq<char> {
    save_path.take(save_path.len() - 5)
}

/// The path of the backup of a source list.
pub fn backup_path(path: &str) -> (r: String)
    ensures
        r@ == spec_backup_path(path@),
{
    let mut r = owned(path);
    push_str(&mut r, ".save");
    r
}

/// The path that a backup restores (the backup's path without its last five characters,
/// `.save`).
pub fn restore_path(save_path: &str) -> (r: String)
    requires
        save_path@.len() >= 5,
    ensures
        r@ == spec_restore_path(save_path@),
{
    let v = chars_of(save_path);
    string_of(&slice(&v, 0, v.len() - 5))
}

/// What a backup of the source lists does.
pub struct BackupPlan {
    /// Old backups that are removed first.
    pub delete: Vec<String>,
    /// Source lists that are copied to their backup path.
    pub backup: Vec<String>,
    /// Whether `/etc/apt/sources.list` is missing and the default lists have to be written.
    pub sources_missing: bool,
}

/// The old backups to delete among the files of the sources directory: those whose extension
/// is `save`.
pub open spec fn spec_backup_deletes(ppa_files: Seq<Seq<char>>) -> Seq<Seq<char>> {
    ppa_files.filter(|p: Seq<char>| std_path_extension(p) == Some("save"@))
}

/// The lists to back up among the files of the sources directory: `.sources` and `.list`.
pub open spec fn spec_backup_lists(ppa_files: Seq<Seq<char>>) -> Seq<Seq<char>> {
    ppa_files.filter(
        |p: Seq<char>|
            std_path_extension(p) == Some("sources"@) || std_path_extension(p) == Some("list"@),
    )
}

/// Plans the backup of the source lists, given whether `/etc/apt/sources.list` and its backup
/// exist and the paths of the entries of the sources directory.
pub fn backup_plan(sources_list_exists: bool, sources_list_save_exists: bool, ppa_files: &Vec<
    String,
>) -> (plan: BackupPlan)
    ensures
        plan.sources_missing == !sources_list_exists,
        string_views(plan.delete@) == (if sources_list_exists && sources_list_save_exists {
            seq![SOURCES_LIST_SAVE@]
        } else {
            seq![]
        }) + spec_backup_deletes(string_views(ppa_files@)),
        string_views(plan.backup@) == (if sources_list_exists {
            seq![SOURCES_LIST@]
        } else {
            seq![]
        }) + spec_backup_lists(string_views(ppa_files@)),
{
    let mut delete: Vec<String> = Vec::new();
    let mut backup: Vec<String> = Vec::new();
    if sources_list_exists {
        if sources_list_save_exists {
            delete.push(owned(SOURCES_LIST_SAVE));
        }
        backup.push(owned(SOURCES_LIST));
    }
    let ghost d0 = string_views(delete@);
    let ghost b0 = string_views(backup@);
    let ghost files = string_views(ppa_files@);
    let ghost del_pred = |p: Seq<char>| std_path_extension(p) == Some("save"@);
    let ghost back_pred = |p: Seq<char>|
        std_path_extension(p) == Some("sources"@) || std_path_extension(p) == Some("list"@);
    let mut i: usize = 0;
    while i < ppa_files.len()
        invariant
            i <= ppa_files.len(),
            files == string_views(ppa_files@),
            del_pred == (|p: Seq<char>| std_path_extension(p) == Some("save"@)),
            back_pred == (|p: Seq<char>|
                std_path_extension(p) == Some("sources"@) || std_path_extension(p) == Some(
                    "list"@,
                )),
            string_views(delete@) == d0 + files.take(i as int).filter(del_pred),
            string_views(backup@) == b0 + files.take(i as int).filter(back_pred),
        decreases ppa_files.len() - i,
    {
        let path = ppa_files[i].as_str();
        assert(files.take(i + 1).drop_last() =~= files.take(i as int));
        assert(files.take(i + 1).last() == path@);
        proof {
            reveal_with_fuel(Seq::<_>::filter, 1);
        }
        let ghost dv = string_views(delete@);
        let ghost bv = string_views(backup@);
        match path_extension(path) {
            Some(ext) => {
                if text_eq(ext.as_str(), "save") {
                    delete.push(owned(path));
                    assert(string_views(delete@) =~= dv.push(path@));
                    proof {
                        reveal_strlit("save");
                        reveal_strlit("sources");
                        reveal_strlit("list");
                    }
                    assert("save"@.len() != "sources"@.len());
                    assert("save"@[0] != "list"@[0]);
                } else if text_eq(ext.as_str(), "sources") || text_eq(ext.as_str(), "list") {
                    backup.push(owned(path));
                    assert(string_views(backup@) =~= bv.push(path@));
                }
            },
            None => {},
        }
        i = i + 1;
    }
    assert(files.take(ppa_files.len() as int) =~= files);
    BackupPlan { delete, backup, sources_missing: !sources_list_exists }
}

/// The files of the sources directory that a restore removes before putting the backups back:
/// when any of them is a backup, every file that is not one.
pub open spec fn spec_restore_removals(ppa_files: Seq<Seq<char>>) -> Seq<Seq<char>> {
    if exists|i: int| 0 <= i < ppa_files.len() && std_path_extension(#[trigger] ppa_files[i]) == Some("save"@) {
        ppa_files.filter(|p: Seq<char>| std_path_extension(p) != Some("save"@))
    } else {
        seq![]
    }
}

/// The regular files of the sources directory to remove before a restore.
pub fn restore_removals(ppa_files: &Vec<String>) -> (r: Vec<String>)
    ensures
        string_views(r@) == spec_restore_removals(string_views(ppa_files@)),
        forall|i: int| 0 <= i < r@.len() ==> !is_backup_name(#[trigger] r@[i]@),
{
    let ghost files = string_views(ppa_files@);
    let mut any_save = false;
    let mut i: usize = 0;
    while i < ppa_files.len()
        invariant
            i <= ppa_files.len(),
            files == string_views(ppa_files@),
            any_save == exists|j: int|
                0 <= j < i && std_path_extension(#[trigger] files[j]) == Some("save"@),
        decreases ppa_files.len() - i,
    {
        assert(files[i as int] == ppa_files@[i as int]@);
        if is_save_file(ppa_files[i].as_str()) {
            any_save = true;
        }
        i = i + 1;
    }
    let mut r: Vec<String> = Vec::new();
    if !any_save {
        return r;
    }
    let ghost pred = |p: Seq<char>| std_path_extension(p) != Some("save"@);
    let mut k: usize = 0;
    while k < ppa_files.len()
        invariant
            k <= ppa_files.len(),
            files == string_views(ppa_files@),
            pred == (|p: Seq<char>| std_path_extension(p) != Some("save"@)),
            string_views(r@) == files.take(k as int).filter(pred),
            forall|i: int| 0 <= i < r@.len() ==> !is_backup_name(#[trigger] r@[i]@),
        decreases ppa_files.len() - k,
    {
        let path = ppa_files[k].as_str();
        assert(files.take(k + 1).drop_last() =~= files.take(k as int));
        assert(files.take(k + 1).last() == path@);
        proof {
            reveal_with_fuel(Seq::<_>::filter, 1);
        }
        let ghost rv = string_views(r@);
        if !is_save_file(path) {
            r.push(owned(path));
            assert(string_views(r@) =~= rv.push(path@));
        }
        k = k + 1;
    }
    assert(files.take(ppa_files.len() as int) =~= files);
    r
}

/// The backups that a restore puts back: `/etc/apt/sources.list.save` if it exists, then the
/// files of the sources directory whose extension is `save`.
pub open spec fn spec_restore_backups(sources_list_save_exists: bool, ppa_files: Seq<Seq<char>>) -> Seq<
    Seq<char>,
> {
    (if sources_list_save_exists {
        seq![SOURCES_LIST_SAVE@]
    } else {
        seq![]
    }) + spec_backup_deletes(ppa_files)
}

/// The `(backup, destination)` pairs of a restore, given whether
/// `/etc/apt/sources.list.save` exists and the paths of the sources directory's entries.
pub fn restore_plan(sources_list_save_exists: bool, ppa_files: &Vec<String>) -> (r: Vec<(String, String)>)
    ensures
        r@.map_values(|p: (String, String)| p.0@) == spec_restore_backups(
            sources_list_save_exists,
            string_views(ppa_files@),
        ),
        forall|i: int|
            0 <= i < r@.len() ==> #[trigger] r@[i].1@ == spec_restore_path(r@[i].0@),
        forall|j: int|
            0 <= j < ppa_files@.len() && is_backup_name(#[trigger] ppa_files@[j]@) ==> exists|
                i: int,
            |
                0 <= i < r@.len() && #[trigger] r@[i].0@ == ppa_files@[j]@,
{
    let mut r: Vec<(String, String)> = Vec::new();
    if sources_list_save_exists {
        r.push((owned(SOURCES_LIST_SAVE), owned(SOURCES_LIST)));
        proof {
            reveal_strlit("/etc/apt/sources.list.save");
            reveal_strlit("/etc/apt/sources.list");
        }
        assert(SOURCES_LIST@ =~= spec_restore_path(SOURCES_LIST_SAVE@));
    }
    let ghost r0 = r@.map_values(|p: (String, String)| p.0@);
    let ghost files = string_views(ppa_files@);
    let ghost pred = |p: Seq<char>| std_path_extension(p) == Some("save"@);
    let mut i: usize = 0;
    while i < ppa_files.len()
        invariant
            i <= ppa_files.len(),
            files == string_views(ppa_files@),
            pred == (|p: Seq<char>| std_path_extension(p) == Some("save"@)),
            r@.map_values(|p: (String, String)| p.0@) == r0 + files.take(i as int).filter(pred),
            forall|j: int| 0 <= j < r@.len() ==> #[trigger] r@[j].1@ == spec_restore_path(r@[j].0@),
            forall|j: int|
                0 <= j < i && is_backup_name(#[trigger] ppa_files@[j]@) ==> exists|m: int|
                    0 <= m < r@.len() && #[trigger] r@[m].0@ == ppa_files@[j]@,
        decreases ppa_files.len() - i,
    {
        let path = ppa_files[i].as_str();
        assert(files.take(i + 1).drop_last() =~= files.take(i as int));
        assert(files.take(i + 1).last() == path@);
        proof {
            reveal_with_fuel(Seq::<_>::filter, 1);
        }
        let ghost rv = r@.map_values(|p: (String, String)| p.0@);
        let ghost before = r@;
        if is_save_file(path) {
            let dst = restore_path(path);
            r.push((owned(path), dst));
            assert(r@.map_values(|p: (String, String)| p.0@) =~= rv.push(path@));
            assert(r@[r@.len() - 1].0@ == ppa_files@[i as int]@);
        }
        assert forall|j: int|
            0 <= j < i + 1 && is_backup_name(#[trigger] ppa_files@[j]@) implies exists|m: int|
                0 <= m < r@.len() && #[trigger] r@[m].0@ == ppa_files@[j]@ by {
            if j < i {
                let m = choose|m: int| 0 <= m < before.len() && #[trigger] before[m].0@ == ppa_files@[j]@;
                assert(r@[m] == before[m]);
            } else {
                assert(r@[r@.len() - 1].0@ == ppa_files@[j]@);
            }
        }
        i = i + 1;
    }
    assert(files.take(ppa_files.len() as int) =~= files);
    r
}

/// Restoring a backup puts it back where it was backed up from.
pub proof fn law_restore_undoes_backup(path: Seq<char>)
    ensures
        spec_restore_path(spec_backup_path(path)) == path,
{
    reveal_strlit(".save");
    assert(spec_backup_path(path).take(path.len() as int) =~= path);
}

/// A list that a backup copied to its backup path (`f` not empty and not ending in `/`) is
/// put back by a restore. `later` is the listing of the directory at the restore, which holds
/// that backup; `pairs` and `removed` are the `(backup, destination)` pairs and the removals
/// that `restore_plan` and `restore_removals` give for it (their views). The plan renames the
/// backup to `f`, and the removals never delete a backup: they delete only files that are no
/// backups, and a list that has one gets it back by the rename.
pub proof fn law_backup_then_restore(
    f: Seq<char>,
    later: Seq<Seq<char>>,
    pairs: Seq<(Seq<char>, Seq<char>)>,
    removed: Seq<Seq<char>>,
)
    requires
        f.len() > 0,
        f.last() != '/',
        later.contains(spec_backup_path(f)),
        forall|i: int| 0 <= i < pairs.len() ==> #[trigger] pairs[i].1 == spec_restore_path(pairs[i].0),
        forall|j: int|
            0 <= j < later.len() && is_backup_name(#[trigger] later[j]) ==> exists|i: int|
                0 <= i < pairs.len() && #[trigger] pairs[i].0 == later[j],
        forall|i: int| 0 <= i < removed.len() ==> !is_backup_name(#[trigger] removed[i]),
    ensures
        exists|i: int| 0 <= i < pairs.len() && pairs[i] == (spec_backup_path(f), f),
        !removed.contains(spec_backup_path(f)),
{
    let b = spec_backup_path(f);
    reveal_strlit(".save");
    assert(b.subrange(b.len() - 5, b.len() as int) =~= ".save"@);
    assert(b[b.len() - 6] == f.last());
    assert(is_backup_name(b));
    let j = choose|j: int| 0 <= j < later.len() && later[j] == b;
    assert(is_backup_name(later[j]));
    let i = choose|i: int| 0 <= i < pairs.len() && #[trigger] pairs[i].0 == later[j];
    law_restore_undoes_backup(f);
    assert(pairs[i].1 == f);
    assert(pairs[i] == (b, f));
    if removed.contains(b) {
        let k = choose|k: int| 0 <= k < removed.len() && removed[k] == b;
        assert(!is_backup_name(removed[k]));
    }
}

/// The URL of the `Release` file of a release in Ubuntu's old-releases archive.
pub fn old_release_url(codename: &str) -> (r: String)
    ensures
        r@ == "http://old-releases.ubuntu.com/ubuntu/dists/"@ + codename@ + "/Release"@,
{
    let mut r = owned("http://old-releases.ubuntu.com/ubuntu/dists/");
    push_str(&mut r, codename);
    push_str(&mut r, "/Release");
    r
}

/// The files whose archive URIs are switched to old-releases.
pub const OLD_RELEASE_FILES: [&'static str; 2] = [SOURCES_LIST, SYSTEM_SOURCES];

/// The pattern of the Ubuntu archive URIs that move to old-releases.
pub const OLD_RELEASES_PATTERN: &'static str = "http.*archive.ubuntu.com";

/// What those URIs become once the release is no longer served by the archive.
pub const OLD_RELEASES_URL: &'static str = "http://old-releases.ubuntu.com";

/// What `regex` gives for `pattern`, `text` and `replacement`: `None` when
/// `regex::Regex::new` refuses the pattern; otherwise what `Regex::replace_all` gives,
/// `None` when nothing matched and the new text when something did.
pub uninterp spec fn regex_replace_all_result(
    pattern: Seq<char>,
    text: Seq<char>,
    replacement: Seq<char>,
) -> Option<Option<Seq<char>>>;

/// Replaces every match of `pattern` in `text` by `replacement`.
///
/// Trusted: compiles `pattern` with `regex::Regex::new` (its error gives `None`) and calls
/// `Regex::replace_all`, which returns the haystack borrowed when nothing matched (here
/// `Some(None)`) and an owned text otherwise. The result is a function of the three texts;
/// the regex semantics are not restated here.
#[verifier::external_body]
fn regex_replace_all(pattern: &str, text: &str, replacement: &str) -> (r: Option<Option<String>>)
    ensures
        match r {
            None => regex_replace_all_result(pattern@, text@, replacement@) is None,
            Some(None) => regex_replace_all_result(pattern@, text@, replacement@) == Some(
                None::<Seq<char>>,
            ),
            Some(Some(t)) => regex_replace_all_result(pattern@, text@, replacement@) == Some(
                Some(t@),
            ),
        },
{
    let regex = match regex::Regex::new(pattern) {
        Ok(regex) => regex,
        Err(_) => return None,
    };
    match regex.replace_all(text, replacement) {
        std::borrow::Cow::Borrowed(_) => Some(None),
        std::borrow::Cow::Owned(out) => Some(Some(out)),
    }
}

/// The new contents of a source list whose Ubuntu archive URIs point to old-releases: every
/// match of [`OLD_RELEASES_PATTERN`] becomes [`OLD_RELEASES_URL`]. `None` when no URI had to
/// change, and also, leaving the list as it is, if the pattern were refused.
pub fn replace_with_old_releases(contents: &str) -> (r: Option<String>)
    ensures
        match regex_replace_all_result(OLD_RELEASES_PATTERN@, contents@, OLD_RELEASES_URL@) {
            Some(Some(t)) => r matches Some(u) && u@ == t,
            _ => r is None,
        },
{
    match regex_replace_all(OLD_RELEASES_PATTERN, contents, OLD_RELEASES_URL) {
        Some(Some(t)) => Some(t),
        _ => None,
    }
}

} // verus!
