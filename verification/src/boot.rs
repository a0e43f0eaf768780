//! The systemd-boot default entry, and the files an offline upgrade needs.

use vstd::prelude::*;

use crate::text::{chars_of, has_prefix, has_suffix, starts_with, ends_with, string_of};

verus! {

/// The entry booted by default when the loader configuration names none and the running
/// entry is unknown.
pub const DEFAULT_BOOT: &'static str = "Pop_OS-current";

/// Where the default entry is recorded before it is changed.
pub const PREVIOUS_DEFAULT: &'static str = "/var/lib/pop-upgrade/previous_default";

/// Files that must be in place for a systemd offline upgrade.
pub const REQUIRED_UPGRADE_FILES: [&'static str; 3] = [
    "/usr/lib/pop-upgrade/upgrade.sh",
    "/usr/lib/systemd/system/pop-upgrade-init.service",
    "/usr/lib/systemd/system/system-update.target.wants/pop-upgrade-init.service",
];

/// The systemd-boot configuration, as far as the upgrade reads and changes it.
pub struct BootConf {
    /// The `default` entry of `loader.conf`.
    pub default: Option<String>,
    /// The ids of the loader entries, in the order the configuration lists them.
    pub entries: Vec<String>,
    /// The id of the entry that booted the running system, if known.
    pub current: Option<String>,
}

pub enum LoaderEntry {
    Current,
    Recovery,
}

#[derive(Debug)]
pub enum BootError {
    /// recovery entry not found in systemd-boot loader config
    MissingRecoveryEntry,
}

/// Files required for a systemd upgrade that are missing.
#[derive(Debug)]
pub struct MissingUpgradeFiles(pub Vec<&'static str>);

/// `str::to_lowercase` of the given text.
pub uninterp spec fn std_lowercase(s: Seq<char>) -> Seq<char>;

/// The lower-case form of a string.
///
/// Trusted: calls `str::to_lowercase`, whose result (the Unicode lower-case mapping of each
/// character) is a function of the text alone; the mapping is not restated here.
#[verifier::external_body]
fn lowercase(s: &str) -> (r: String)
    ensures
        r@ == std_lowercase(s@),
{
    s.to_lowercase()
}

/// Whether an entry id names the kind of entry: `Current` entries end with `current`,
/// `Recovery` entries start with `recovery`, both compared in lower case.
pub open spec fn matches_variant(variant: LoaderEntry, id: Seq<char>) -> bool {
    match variant {
        LoaderEntry::Current => has_suffix(std_lowercase(id), "current"@),
        LoaderEntry::Recovery => has_prefix(std_lowercase(id), "recovery"@),
    }
}

/// The first entry at or after `k` of the given kind.
pub open spec fn first_of_variant(entries: Seq<Seq<char>>, variant: LoaderEntry, k: int) -> Option<
    int,
>
    decreases entries.len() - k,
{
    if k < 0 || k >= entries.len() {
        None
    } else if matches_variant(variant, entries[k]) {
        Some(k)
    } else {
        first_of_variant(entries, variant, k + 1)
    }
}

impl BootConf {
    pub open spec fn entry_ids(&self) -> Seq<Seq<char>> {
        self.entries@.map_values(|e: String| e@)
    }

    /// The default entry: the configured one, else the running one, else `Pop_OS-current`.
    pub open spec fn spec_default_boot(&self) -> Seq<char> {
        match self.default {
            Some(d) => d@,
            None => match self.current {
                Some(c) => c@,
                None => "Pop_OS-current"@,
            },
        }
    }

    /// The default entry that is recorded before it is changed: a recovery entry is recorded
    /// as `Pop_OS-current`, so that restoring it does not boot into recovery.
    pub open spec fn spec_previous_default(&self) -> Seq<char> {
        if has_prefix(self.spec_default_boot(), "Recovery"@) {
            "Pop_OS-current"@
        } else {
            self.spec_default_boot()
        }
    }

    /// The entry that is booted by default.
    pub fn default_boot(&self) -> (r: &str)
        ensures
            r@ == self.spec_default_boot(),
    {
        match &self.default {
            Some(d) => d.as_str(),
            None => match &self.current {
                Some(c) => c.as_str(),
                None => DEFAULT_BOOT,
            },
        }
    }

    /// The default entry to record in `PREVIOUS_DEFAULT` before the default is changed.
    pub fn previous_default(&self) -> (r: String)
        ensures
            r@ == self.spec_previous_default(),
    {
        let current = chars_of(self.default_boot());
        if starts_with(&current, &chars_of("Recovery")) {
            string_of(&chars_of(DEFAULT_BOOT))
        } else {
            string_of(&current)
        }
    }

    /// Defines the specified entry as the default boot entry.
    pub fn set_default_boot_id(&mut self, id: &str)
        ensures
            final(self).default matches Some(d) && d@ == id@,
            final(self).entries@ == old(self).entries@,
            final(self).current == old(self).current,
    {
        self.default = Some(string_of(&chars_of(id)));
    }

    /// Defines the first entry of the given kind as the default boot entry.
    pub fn set_default_boot_variant(&mut self, variant: &LoaderEntry) -> (r: Result<(), BootError>)
        ensures
            final(self).entries@ == old(self).entries@,
            final(self).current == old(self).current,
            match first_of_variant(old(self).entry_ids(), *variant, 0) {
                Some(k) => r is Ok && (final(self).default matches Some(d) && d@ == old(
                    self,
                ).entry_ids()[k]),
                None => r is Err && final(self).default == old(self).default,
            },
    {
        let ghost ids = self.entry_ids();
        let mut k: usize = 0;
        while k < self.entries.len()
            invariant
                k <= self.entries.len(),
                self.entries@ == old(self).entries@,
                self.current == old(self).current,
                self.default == old(self).default,
                ids == old(self).entry_ids(),
                ids == self.entry_ids(),
                first_of_variant(ids, *variant, 0) == first_of_variant(ids, *variant, k as int),
            decreases self.entries.len() - k,
        {
            let lower = chars_of(lowercase(self.entries[k].as_str()).as_str());
            assert(ids[k as int] == self.entries@[k as int]@);
            let found = match variant {
                LoaderEntry::Current => ends_with(&lower, &chars_of("current")),
                LoaderEntry::Recovery => starts_with(&lower, &chars_of("recovery")),
            };
            if found {
                let id = string_of(&chars_of(self.entries[k].as_str()));
                self.default = Some(id);
                return Ok(());
            }
            k = k + 1;
        }
        Err(BootError::MissingRecoveryEntry)
    }
}

/// `file` when it is missing, nothing otherwise.
pub open spec fn if_missing(present: bool, file: &'static str) -> Seq<Seq<char>> {
    if present {
        seq![]
    } else {
        seq![file@]
    }
}

/// The required upgrade files, in order, whose presence flag is false.
pub open spec fn spec_missing_files(present: [bool; 3]) -> Seq<Seq<char>> {
    if_missing(present[0], REQUIRED_UPGRADE_FILES[0]) + if_missing(
        present[1],
        REQUIRED_UPGRADE_FILES[1],
    ) + if_missing(present[2], REQUIRED_UPGRADE_FILES[2])
}

/// Validates that the files required for a systemd upgrade are in place; `present[i]` tells
/// whether `REQUIRED_UPGRADE_FILES[i]` exists as a file. The error lists the missing ones, in
/// order.
pub fn upgrade_prereq(present: [bool; 3]) -> (r: Result<(), MissingUpgradeFiles>)
    ensures
        (present[0] && present[1] && present[2]) <==> r is Ok,
        r matches Err(MissingUpgradeFiles(missing)) ==> missing@.map_values(|f: &'static str| f@)
            == spec_missing_files(present),
{
    let mut missing: Vec<&'static str> = Vec::new();
    let mut j: usize = 0;
    while j < 3
        invariant
            j <= 3,
            missing@.map_values(|f: &'static str| f@) == (if j > 0 {
                if_missing(present[0], REQUIRED_UPGRADE_FILES[0])
            } else {
                seq![]
            }) + (if j > 1 {
                if_missing(present[1], REQUIRED_UPGRADE_FILES[1])
            } else {
                seq![]
            }) + (if j > 2 {
                if_missing(present[2], REQUIRED_UPGRADE_FILES[2])
            } else {
                seq![]
            }),
        decreases 3 - j,
    {
        let ghost before = missing@.map_values(|f: &'static str| f@);
        if !present[j] {
            missing.push(REQUIRED_UPGRADE_FILES[j]);
            assert(missing@.map_values(|f: &'static str| f@) =~= before.push(
                REQUIRED_UPGRADE_FILES[j as int]@,
            ));
        } else {
            assert(missing@.map_values(|f: &'static str| f@) =~= before);
        }
        assert(missing@.map_values(|f: &'static str| f@) =~= (if j + 1 > 0 {
            if_missing(present[0], REQUIRED_UPGRADE_FILES[0])
        } else {
            seq![]
        }) + (if j + 1 > 1 {
            if_missing(present[1], REQUIRED_UPGRADE_FILES[1])
        } else {
            seq![]
        }) + (if j + 1 > 2 {
            if_missing(present[2], REQUIRED_UPGRADE_FILES[2])
        } else {
            seq![]
        }));
        j = j + 1;
    }
    if missing.len() != 0 {
        return Err(MissingUpgradeFiles(missing));
    }
    assert(missing@.map_values(|f: &'static str| f@).len() == 0);
    Ok(())
}

/// What is read back after a default is written: once an entry is set as the default, it is
/// the default boot entry, whatever the configuration held before.
pub proof fn law_default_boot_after_set(after: BootConf, id: Seq<char>)
    requires
        after.default matches Some(d) && d@ == id,
    ensures
        after.spec_default_boot() == id,
{
}

proof fn lemma_first_of_variant_matches(entries: Seq<Seq<char>>, variant: LoaderEntry, k: int)
    requires
        0 <= k,
        first_of_variant(entries, variant, k) is Some,
    ensures
        ({
            let j = first_of_variant(entries, variant, k)->0;
            k <= j < entries.len() && matches_variant(variant, entries[j])
        }),
    decreases entries.len() - k,
{
    if k < entries.len() && !matches_variant(variant, entries[k]) {
        lemma_first_of_variant_matches(entries, variant, k + 1);
    }
}

/// Once the default is set to an entry of a kind (the current system or the recovery
/// partition), the entry booted by default is of that kind.
pub proof fn law_default_after_variant(before: BootConf, after: BootConf, variant: LoaderEntry)
    requires
        first_of_variant(before.entry_ids(), variant, 0) matches Some(k) && after.default matches Some(
            d,
        ) && d@ == before.entry_ids()[k],
    ensures
        matches_variant(variant, after.spec_default_boot()),
{
    lemma_first_of_variant_matches(before.entry_ids(), variant, 0);
}

/// The recorded previous default is never a recovery entry.
pub proof fn law_previous_default_not_recovery(conf: BootConf)
    ensures
        !has_prefix(conf.spec_previous_default(), "Recovery"@),
{
    reveal_strlit("Recovery");
    reveal_strlit("Pop_OS-current");
    if has_prefix(conf.spec_default_boot(), "Recovery"@) {
        assert("Pop_OS-current"@[0] != "Recovery"@[0]);
        assert(("Pop_OS-current"@).take(8)[0] != ("Recovery"@)[0]);
    }
}

} // verus!
