use pop_upgrade::arch::{detect_arch, PciDevice, ReleaseArchError};
use pop_upgrade::client::ReleaseFlags;
use pop_upgrade::codename::Codename;
use pop_upgrade::eol::is_eol;
use pop_upgrade::repair::{pre_upgrade, repair_release, RepairError};
use pop_upgrade::version::{Version, VersionError};

use pop_upgrade::repair::{repair_run, repair_steps, RepairStep};

#[test]
fn repair_release_names() {
    assert_eq!(repair_release("jammy").unwrap(), Codename::Jammy);
    match repair_release("Jammy") {
        Err(e @ RepairError::UnknownCodename { .. }) => {
            assert_eq!(e.message(), "unknown release codename: Jammy")
        }
        other => panic!("unexpected {:?}", other),
    }
    assert!(pre_upgrade().is_ok());
}

#[test]
fn architecture_of_the_recovery_image() {
    assert_eq!(detect_arch(&vec![PciDevice::Vendor(0x8086)]).unwrap(), "intel");
    assert_eq!(detect_arch(&vec![PciDevice::Vendor(0x8086), PciDevice::Vendor(0x10de)]).unwrap(), "nvidia");
    assert_eq!(
        detect_arch(&vec![PciDevice::Vendor(0x10de), PciDevice::ProbeFailed(String::from("x"))]).unwrap(),
        "nvidia"
    );
    assert!(matches!(
        detect_arch(&vec![PciDevice::VendorFailed(String::from("io")), PciDevice::Vendor(0x10de)]),
        Err(ReleaseArchError::PciVendor(ref w)) if w == "io"
    ));
    assert_eq!(detect_arch(&Vec::new()).unwrap(), "intel");
}

#[test]
fn versions_of_the_running_system() {
    assert_eq!(
        Version::detect(Ok("22.04 LTS")).unwrap(),
        Version { major: 22, minor: 4, patch: 0 }
    );
    assert!(matches!(Version::detect(Err(String::from("missing"))), Err(VersionError::OsRelease(ref w)) if w == "missing"));
    assert!(matches!(Version::detect(Ok("")), Err(VersionError::Parse(_))));
}

#[test]
fn releases_long_past_their_end_of_life() {
    assert!(is_eol(Codename::Cosmic));
    assert!(is_eol(Codename::Disco));
}

#[test]
fn release_flags() {
    assert!(ReleaseFlags::next().contains_next());
    assert!(!ReleaseFlags::empty().contains_next());
}

#[test]
fn repairs_run_in_order_until_one_fails() {
    assert_eq!(
        repair_steps(true),
        vec![RepairStep::Crypttab, RepairStep::Fstab, RepairStep::EspConversion, RepairStep::Swapfile, RepairStep::Packaging]
    );
    let steps = repair_steps(false);
    assert_eq!(steps, vec![RepairStep::Crypttab, RepairStep::Fstab, RepairStep::Swapfile, RepairStep::Packaging]);
    assert_eq!(repair_run(&steps, &vec![true, true, true, true]), (4, None));
    assert_eq!(repair_run(&steps, &vec![true, false, true, true]), (2, Some(RepairStep::Fstab)));
}
