use pop_upgrade::sources;
use pop_upgrade::sources::{
    backup_path, backup_plan, comment_out_debs, default_source_lists,
    is_system76_list, old_release_url, preferences_for, proprietary_sources, release_sources,
    replace_with_old_releases, restore_path, restore_plan, restore_removals, system_sources,
    third_party_action, ThirdPartyAction, GROOVY_PPA, PPA_SOURCES, PREFERENCES,
    PREFERENCES_BIONIC, PREFERENCES_IMPISH, SOURCES_LIST, SOURCES_LIST_SAVE, SYSTEM_SOURCES,
};

use pop_upgrade::sources::{OLD_RELEASES_PATTERN, OLD_RELEASES_URL};

#[test]
fn is_save_file() {
    assert!(!sources::is_save_file("/etc/apt/sources.list.d/pop-os-apps.sources"));
    assert!(sources::is_save_file("/etc/apt/sources.list.d/pop-os-apps.sources.save"));
}

#[test]
fn system76_lists_are_recognised() {
    assert!(is_system76_list("/etc/apt/sources.list.d/system76-ubuntu-pop-focal.list"));
    assert!(!is_system76_list("/etc/apt/sources.list.d/system76-ubuntu-pop-focal.sources"));
    assert!(!is_system76_list("/etc/apt/sources.list.d/google-chrome.list"));
}

#[test]
fn third_party_actions() {
    assert_eq!(third_party_action("/etc/apt/sources.list.d/chrome.list"), ThirdPartyAction::CommentOut);
    assert_eq!(third_party_action("/etc/apt/sources.list.d/vscode.sources"), ThirdPartyAction::Remove);
    assert_eq!(third_party_action("/etc/apt/sources.list.d/pop-os-apps.sources"), ThirdPartyAction::Keep);
    assert_eq!(third_party_action("/etc/apt/sources.list.d/system.sources"), ThirdPartyAction::Keep);
    assert_eq!(third_party_action("/etc/apt/sources.list.d/README"), ThirdPartyAction::Keep);
}

#[test]
fn deb_lines_are_commented_out() {
    assert_eq!(
        comment_out_debs("deb http://a focal main\n  deb-src http://a focal main\n# kept\n"),
        "# deb http://a focal main\n# deb-src http://a focal main\n# kept\n"
    );
    assert_eq!(comment_out_debs(""), "");
}

#[test]
fn commenting_out_twice_changes_nothing_more() {
    let once = comment_out_debs("deb http://a focal main\nother\n");
    assert_eq!(comment_out_debs(&once), once);
}

#[test]
fn backups_round_trip() {
    let b = backup_path("/etc/apt/sources.list.d/x.list");
    assert_eq!(b, "/etc/apt/sources.list.d/x.list.save");
    assert_eq!(restore_path(&b), "/etc/apt/sources.list.d/x.list");
}

#[test]
fn backup_plan_sorts_the_files() {
    let files = vec![
        String::from("/x/a.list"),
        String::from("/x/b.sources"),
        String::from("/x/c.list.save"),
        String::from("/x/d.txt"),
    ];
    let plan = backup_plan(true, true, &files);
    assert_eq!(plan.delete, vec![SOURCES_LIST_SAVE.to_string(), "/x/c.list.save".to_string()]);
    assert_eq!(
        plan.backup,
        vec![SOURCES_LIST.to_string(), "/x/a.list".to_string(), "/x/b.sources".to_string()]
    );
    assert!(!plan.sources_missing);

    let plan = backup_plan(false, true, &files);
    assert_eq!(plan.delete, vec!["/x/c.list.save".to_string()]);
    assert!(plan.sources_missing);
}

#[test]
fn restore_plan_puts_backups_back() {
    let files = vec![String::from("/x/a.list.save"), String::from("/x/b.sources")];
    let plan = restore_plan(true, &files);
    assert_eq!(
        plan,
        vec![
            (SOURCES_LIST_SAVE.to_string(), SOURCES_LIST.to_string()),
            ("/x/a.list.save".to_string(), "/x/a.list".to_string()),
        ]
    );
    assert_eq!(restore_removals(&files), vec!["/x/b.sources".to_string()]);
    assert!(restore_removals(&vec![String::from("/x/b.sources")]).is_empty());
}

#[test]
fn old_releases() {
    assert_eq!(
        old_release_url("impish"),
        "http://old-releases.ubuntu.com/ubuntu/dists/impish/Release"
    );
    assert_eq!(
        replace_with_old_releases("deb http://us.archive.ubuntu.com/ubuntu impish main"),
        Some(String::from("deb http://old-releases.ubuntu.com/ubuntu impish main"))
    );
    assert_eq!(replace_with_old_releases("deb http://apt.pop-os.org/release impish main"), None);
}

#[test]
fn sources_texts() {
    assert_eq!(
        proprietary_sources("jammy"),
        "X-Repolib-Name: Pop_OS Apps\nEnabled: yes\nTypes: deb\nURIs: http://apt.pop-os.org/proprietary\nSuites: jammy\nComponents: main\n"
    );
    assert_eq!(
        release_sources("jammy"),
        "X-Repolib-Name: Pop_OS Release Sources\nEnabled: yes\nTypes: deb deb-src\nURIs: http://apt.pop-os.org/release\nSuites: jammy\nComponents: main\n"
    );
    assert!(system_sources("jammy", false).contains("URIs: http://apt.pop-os.org/ubuntu\n"));
    assert!(system_sources("jammy", true).contains("URIs: http://ports.ubuntu.com/ubuntu-ports\n"));
    assert_eq!(preferences_for("focal"), PREFERENCES_BIONIC);
    assert_eq!(preferences_for("jammy"), PREFERENCES_IMPISH);
}

#[test]
fn default_lists_of_a_deb822_release() {
    let plan = default_source_lists("jammy", false);
    assert_eq!(plan.removals, vec![GROOVY_PPA, PPA_SOURCES]);
    let paths: Vec<&str> = plan.writes.iter().map(|(p, _)| *p).collect();
    assert_eq!(paths[0], SOURCES_LIST);
    assert_eq!(paths[1], SYSTEM_SOURCES);
    assert_eq!(*paths.last().unwrap(), PREFERENCES);
    assert!(plan.delete_system76_lists);

    let plan = default_source_lists("focal", false);
    assert!(plan.removals.is_empty());
    assert_eq!(plan.writes.len(), 2);
    assert!(!plan.delete_system76_lists);
}

#[test]
fn old_releases_constants() {
    assert_eq!(OLD_RELEASES_PATTERN, "http.*archive.ubuntu.com");
    assert_eq!(OLD_RELEASES_URL, "http://old-releases.ubuntu.com");
}

#[test]
fn backed_up_lists_are_renamed_back() {
    let dir = "/etc/apt/sources.list.d/";
    let files0: Vec<String> =
        ["a.list", "b.sources", "c.txt"].iter().map(|f| format!("{}{}", dir, f)).collect();
    let plan = backup_plan(true, false, &files0);
    assert_eq!(
        plan.backup,
        vec!["/etc/apt/sources.list".to_string(), files0[0].clone(), files0[1].clone()]
    );

    let mut later = files0.clone();
    for f in &plan.backup[1..] {
        later.push(backup_path(f));
    }
    later.push(format!("{}new.list", dir));

    let pairs = restore_plan(true, &later);
    for f in &plan.backup {
        assert!(pairs.iter().any(|(b, d)| b == &backup_path(f) && d == f));
    }
    let removed = restore_removals(&later);
    assert_eq!(removed, vec![files0[0].clone(), files0[1].clone(), files0[2].clone(), format!("{}new.list", dir)]);
    assert!(removed.iter().all(|r| !r.ends_with(".save")));
}
