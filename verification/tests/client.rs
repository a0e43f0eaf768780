use pop_upgrade::client::{
    development_releases_enabled, reboot_is_ready, recovery_exists, status_description, upgrade_in_progress,
    DaemonStatus, MarkerFiles, RecoveryEvent, UpgradeEvent,
};

#[test]
fn marker_files() {
    let files = MarkerFiles { development_release: true, release_fetch: true, startup_upgrade: false };
    assert!(development_releases_enabled(&files));
    assert!(!reboot_is_ready(&files));
    assert!(upgrade_in_progress(&files));
    let none = MarkerFiles { development_release: false, release_fetch: false, startup_upgrade: false };
    assert!(!upgrade_in_progress(&none));
}

#[test]
fn daemon_status_codes() {
    for code in 0..5u8 {
        assert_eq!(DaemonStatus::from_u8(code).unwrap().to_u8(), code);
    }
    assert!(DaemonStatus::from_u8(5).is_none());
    assert_eq!(DaemonStatus::ReleaseUpgrade.as_str(), "upgrading distribution release");
}

#[test]
fn status_descriptions() {
    assert_eq!(status_description(0, 0), ("inactive", ""));
    assert_eq!(
        status_description(3, 1),
        ("upgrading distribution release", UpgradeEvent::from_u8(1).unwrap().as_str())
    );
    assert_eq!(status_description(3, 200), ("upgrading distribution release", "unknown sub_status"));
    assert_eq!(
        status_description(2, 2),
        ("upgrading recovery partition", RecoveryEvent::Verifying.as_str())
    );
    assert_eq!(status_description(9, 0), ("unknown status", ""));
}

#[test]
fn recovery_partition_mounted() {
    assert!(recovery_exists(&vec![String::from("/"), String::from("/recovery")]));
    assert!(recovery_exists(&vec![String::from("/recovery/")]));
    assert!(!recovery_exists(&vec![String::from("/"), String::from("/boot/efi")]));
}
