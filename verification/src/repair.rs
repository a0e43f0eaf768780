//! The system repairs made before an upgrade, and how they fail.

use vstd::prelude::*;

use crate::codename::Codename;

verus! {

/// Why a repair failed; the reasons of the underlying failures are kept as text.
#[derive(Clone, Debug)]
pub enum RepairError {
    Crypttab(String),
    DkmsGcc9(String),
    Esp(String),
    Fstab(String),
    InvalidVersion { version: String },
    Packaging(String),
    Swapfile(String),
    UnknownCodename { codename: String },
    WipePulse(String),
}

impl RepairError {
    /// The text of the error.
    pub fn message(&self) -> (r: String)
        ensures
            self is Crypttab ==> r@ == "failed to correct errors in crypttab"@,
            self is DkmsGcc9 ==> r@ == "unable to apply dkms gcc9 fix"@,
            self is Esp ==> r@ == "failed to upgrade EFI partition"@,
            self is Fstab ==> r@ == "error checking and fixing fstab"@,
            self matches RepairError::InvalidVersion { version } ==> r@
                == "version is not an ubuntu codename: "@ + version@,
            self is Packaging ==> r@ == "packaging error"@,
            self is Swapfile ==> r@ == "failed to update swapfile"@,
            self matches RepairError::UnknownCodename { codename } ==> r@
                == "unknown release codename: "@ + codename@,
            self is WipePulse ==> r@ == "failed to wipe pulseaudio settings for users"@,
    {
        let mut r = String::new();
        match self {
            RepairError::Crypttab(_) => r.append("failed to correct errors in crypttab"),
            RepairError::DkmsGcc9(_) => r.append("unable to apply dkms gcc9 fix"),
            RepairError::Esp(_) => r.append("failed to upgrade EFI partition"),
            RepairError::Fstab(_) => r.append("error checking and fixing fstab"),
            RepairError::InvalidVersion { version } => {
                r.append("version is not an ubuntu codename: ");
                r.append(version.as_str());
            },
            RepairError::Packaging(_) => r.append("packaging error"),
            RepairError::Swapfile(_) => r.append("failed to update swapfile"),
            RepairError::UnknownCodename { codename } => {
                r.append("unknown release codename: ");
                r.append(codename.as_str());
            },
            RepairError::WipePulse(_) => r.append("failed to wipe pulseaudio settings for users"),
        }
        r
    }
}

/// The release that a repair works on: the one that `/etc/os-release` names by its
/// `VERSION_CODENAME`; an unknown name is an error that carries it.
pub fn repair_release(version_codename: &str) -> (r: Result<Codename, RepairError>)
    ensures
        match r {
            Ok(c) => c.name() == version_codename@,
            Err(e) => (forall|c: Codename| c.name() != version_codename@) && (e matches RepairError::UnknownCodename {
                codename,
            } && codename@ == version_codename@),
        },
{
    match Codename::parse(version_codename) {
        Ok(c) => Ok(c),
        Err(_) => {
            let mut codename = String::new();
            codename.append(version_codename);
            Err(RepairError::UnknownCodename { codename })
        },
    }
}

/// The fixes applied right before the release upgrade: none are needed at present.
pub fn pre_upgrade() -> (r: Result<(), RepairError>)
    ensures
        r is Ok,
{
    Ok(())
}

/// A repair that runs before a release upgrade.
#[derive(Clone, Copy, Debug, PartialEq, Eq, Structural)]
pub enum RepairStep {
    /// Corrects the crypttab.
    Crypttab,
    /// Mounts the partitions that the upgrade needs.
    Fstab,
    /// Moves the EFI partition onto the old encrypted-swap partition.
    EspConversion,
    /// Sizes the swap file.
    Swapfile,
    /// Repairs the packaging of the release.
    Packaging,
}

/// The repairs made before an upgrade, in order: the crypttab, the fstab, on EFI systems the
/// EFI partition, the swap file, and the packaging.
pub open spec fn spec_repair_steps(is_efi: bool) -> Seq<RepairStep> {
    if is_efi {
        seq![
            RepairStep::Crypttab,
            RepairStep::Fstab,
            RepairStep::EspConversion,
            RepairStep::Swapfile,
            RepairStep::Packaging,
        ]
    } else {
        seq![RepairStep::Crypttab, RepairStep::Fstab, RepairStep::Swapfile, RepairStep::Packaging]
    }
}

/// The repairs made before an upgrade, in the order they run.
pub fn repair_steps(is_efi: bool) -> (r: Vec<RepairStep>)
    ensures
        r@ == spec_repair_steps(is_efi),
{
    let mut r: Vec<RepairStep> = Vec::new();
    r.push(RepairStep::Crypttab);
    r.push(RepairStep::Fstab);
    if is_efi {
        r.push(RepairStep::EspConversion);
    }
    r.push(RepairStep::Swapfile);
    r.push(RepairStep::Packaging);
    r
}

/// The first step from `k` on that fails, where `ok[j]` says whether step `j` succeeds.
pub open spec fn first_failed_step(ok: Seq<bool>, k: int) -> Option<int>
    decreases ok.len() - k,
{
    if k < 0 || k >= ok.len() {
        None
    } else if !ok[k] {
        Some(k)
    } else {
        first_failed_step(ok, k + 1)
    }
}

/// Runs `steps` in order, where `ok[j]` says whether step `j` succeeds: how many run, and
/// the step whose failure ends the repair. The first failure stops it; later steps do not run.
pub fn repair_run(steps: &Vec<RepairStep>, ok: &Vec<bool>) -> (r: (usize, Option<RepairStep>))
    requires
        ok.len() == steps.len(),
    ensures
        match first_failed_step(ok@, 0) {
            None => r.0 == steps.len() && r.1 is None,
            Some(k) => r.0 == k + 1 && r.1 == Some(steps@[k]),
        },
{
    let mut i: usize = 0;
    while i < steps.len()
        invariant
            i <= steps.len(),
            ok.len() == steps.len(),
            first_failed_step(ok@, 0) == first_failed_step(ok@, i as int),
        decreases steps.len() - i,
    {
        if !ok[i] {
            return (i + 1, Some(steps[i]));
        }
        i = i + 1;
    }
    (steps.len(), None)
}

} // verus!
