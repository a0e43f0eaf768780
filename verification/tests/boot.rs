use pop_upgrade::boot::{
    upgrade_prereq, BootConf, LoaderEntry, MissingUpgradeFiles, DEFAULT_BOOT,
    REQUIRED_UPGRADE_FILES,
};

fn conf(default: Option<&str>) -> BootConf {
    BootConf {
        default: default.map(String::from),
        entries: vec![String::from("Pop_OS-current"), String::from("Recovery-1234-ABCD")],
        current: None,
    }
}

#[test]
fn default_boot_falls_back() {
    assert_eq!(conf(None).default_boot(), DEFAULT_BOOT);
    assert_eq!(conf(Some("Pop_OS-oldkern")).default_boot(), "Pop_OS-oldkern");
    let c = BootConf { default: None, entries: Vec::new(), current: Some(String::from("x")) };
    assert_eq!(c.default_boot(), "x");
}

#[test]
fn recovery_becomes_the_default() {
    let mut c = conf(None);
    assert!(c.set_default_boot_variant(&LoaderEntry::Recovery).is_ok());
    assert_eq!(c.default_boot(), "Recovery-1234-ABCD");
    assert_eq!(c.previous_default(), "Pop_OS-current");
    assert!(c.set_default_boot_variant(&LoaderEntry::Current).is_ok());
    assert_eq!(c.default_boot(), "Pop_OS-current");
}

#[test]
fn missing_recovery_entry_is_an_error() {
    let mut c = BootConf { default: Some(String::from("a")), entries: vec![String::from("a")], current: None };
    assert!(c.set_default_boot_variant(&LoaderEntry::Recovery).is_err());
    assert_eq!(c.default_boot(), "a");
}

#[test]
fn set_default_by_id() {
    let mut c = conf(None);
    c.set_default_boot_id("Pop_OS-oldkern");
    assert_eq!(c.default_boot(), "Pop_OS-oldkern");
}

#[test]
fn upgrade_files_are_required() {
    assert!(upgrade_prereq([true, true, true]).is_ok());
    match upgrade_prereq([true, false, false]) {
        Err(MissingUpgradeFiles(missing)) => {
            assert_eq!(missing, vec![REQUIRED_UPGRADE_FILES[1], REQUIRED_UPGRADE_FILES[2]])
        }
        Ok(()) => panic!("files are missing"),
    }
}
