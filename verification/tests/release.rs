use pop_upgrade::release::{
    additional_packages, codename_from_version, conflicting_packages, core_packages,
    downgrade_plan, is_appcenter, remove_packages, upgrade_set_contents, UpgradeEvent,
};

use pop_upgrade::release::{sources_update_outcome, SourcesUpdate};
use pop_upgrade::codename::Codename;
use pop_upgrade::release::cleanup_restore;
use pop_upgrade::version::Version;

#[test]
fn codenames_from_versions() {
    assert_eq!(codename_from_version("20.04"), "focal");
    assert_eq!(codename_from_version("21.10"), "impish");
    assert_eq!(codename_from_version("24.04"), "noble");
    assert_eq!(codename_from_version("99.04"), "99.04");
    assert_eq!(codename_from_version("focal"), "focal");
}

#[test]
fn upgrade_set_names_both_releases() {
    assert_eq!(upgrade_set_contents("22.04", "24.04"), "jammy noble");
}

#[test]
fn extra_packages_for_noble() {
    assert_eq!(additional_packages("24.04"), vec!["gnome-online-accounts-gtk"]);
    assert!(additional_packages("22.04").is_empty());
}

#[test]
fn package_lists() {
    assert_eq!(remove_packages().len(), 6);
    assert_eq!(remove_packages()[0], "irqbalance");
    assert_eq!(core_packages(true), vec!["pop-desktop-raspi"]);
    assert_eq!(core_packages(false), vec!["linux-generic", "pop-desktop", "sessioninstaller"]);
}

#[test]
fn conflicting_packages_skip_sentinelagent() {
    let installed = vec![String::from("nodejs")];
    let remoteless = vec![String::from("old-lib"), String::from("sentinelagent")];
    assert_eq!(
        conflicting_packages(&installed, &remoteless),
        vec![String::from("nodejs"), String::from("old-lib")]
    );
}

#[test]
fn appcenter_is_recognised() {
    assert!(is_appcenter("io.elementary.appcenter"));
    assert!(is_appcenter("io.elementary.appcenter (deleted)"));
    assert!(!is_appcenter("gnome-software"));
}

#[test]
fn downgrade_plan_protects_and_removes() {
    let downgradable = vec![
        (String::from("pop-upgrade"), String::from("2.0.0 1")),
        (String::from("ansible"), String::from("2.10.7 x")),
        (String::from("ansible-core"), String::from("2.12.0")),
        (String::from("papirus-icon-theme"), String::from("20200801 y")),
        (String::from("empty"), String::from("   ")),
    ];
    let plan = downgrade_plan(&downgradable);
    assert_eq!(plan.removals, vec![String::from("ansible-core"), String::from("epapirus-icon-theme")]);
    assert_eq!(
        plan.installs,
        vec![String::from("ansible=2.10.7"), String::from("papirus-icon-theme=20200801")]
    );
}

#[test]
fn upgrade_event_numbers() {
    assert_eq!(UpgradeEvent::UpdatingPackageLists.to_u8(), 1);
    assert_eq!(UpgradeEvent::Simulating.to_u8(), 16);
}

use pop_upgrade::release::{
    extra_fetch_args, fetch_attempt_outcome, interrupted_upgrade_marker, package_lines,
    ExtraPackages, FetchNext, RELEASE_FETCH_FILE, STARTUP_UPGRADE_FILE,
};

#[test]
fn fetch_attempts() {
    assert!(matches!(fetch_attempt_outcome(0, vec![1, 2], Ok(Vec::new())), FetchNext::Done));
    assert!(matches!(fetch_attempt_outcome(0, vec![1, 2], Ok(vec![2])), FetchNext::Retry(ref v) if v == &vec![2]));
    assert!(matches!(fetch_attempt_outcome(2, vec![1, 2], Ok(vec![2])), FetchNext::Incomplete(ref v) if v == &vec![2]));
    assert!(matches!(fetch_attempt_outcome(2, vec![1, 2], Ok(Vec::new())), FetchNext::Done));
    assert!(matches!(fetch_attempt_outcome(1, vec![1, 2], Err(())), FetchNext::Retry(ref v) if v == &vec![1, 2]));
    assert!(matches!(fetch_attempt_outcome(2, vec![1, 2], Err(())), FetchNext::Failed));
}

#[test]
fn held_package_lines() {
    assert_eq!(package_lines("snapd\nfirefox\n"), vec![String::from("snapd"), String::from("firefox")]);
    assert!(package_lines("").is_empty());
}

#[test]
fn interrupted_upgrade_markers() {
    assert_eq!(interrupted_upgrade_marker(true, true), Some(RELEASE_FETCH_FILE));
    assert_eq!(interrupted_upgrade_marker(false, true), Some(STARTUP_UPGRADE_FILE));
    assert_eq!(interrupted_upgrade_marker(false, false), None);
}

#[test]
fn extra_package_arguments() {
    assert_eq!(extra_fetch_args(&None, true), None);
    assert_eq!(
        extra_fetch_args(&Some(ExtraPackages::Static(vec!["linux-generic", "pop-desktop"])), true),
        Some(vec![String::from("install"), String::from("linux-generic"), String::from("pop-desktop")])
    );
    assert_eq!(
        extra_fetch_args(&Some(ExtraPackages::Dynamic(vec![String::from("x")])), false),
        Some(vec![String::from("download"), String::from("x")])
    );
    assert_eq!(extra_fetch_args(&Some(ExtraPackages::Dynamic(Vec::new())), false), None);
    assert_eq!(extra_fetch_args(&Some(ExtraPackages::Static(Vec::new())), false), Some(vec![String::from("download")]));
}

#[test]
fn failed_sources_update_restores_current_release() {
    assert!(matches!(sources_update_outcome("21.10", Ok(())), SourcesUpdate::Done));
    match sources_update_outcome("21.10", Err("apt update failed".into())) {
        SourcesUpdate::RestoreAndFail { release, why } => {
            assert_eq!(release, "impish");
            assert_eq!(why, "apt update failed");
        }
        SourcesUpdate::Done => panic!("expected a restore"),
    }
}

#[test]
fn cleanup_restores_installed_release() {
    let v = Version { major: 22, minor: 4, patch: 0 };
    assert_eq!(cleanup_restore(true, Some(v)), Some(Codename::Jammy));
    assert_eq!(cleanup_restore(false, Some(v)), None);
    assert_eq!(cleanup_restore(true, None), None);
}
