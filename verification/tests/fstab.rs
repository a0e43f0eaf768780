use pop_upgrade::fstab::{append, esp_fstab_update, find_mount_by_dest, mount_succeeded, remove_from_tab};
use pop_upgrade::fstab;

use pop_upgrade::fstab::{mount_outcome, mount_required, FstabRepairErr};

#[test]
pub fn remove_cryptswap_from_crypttab() {
    let mut sample = String::from(
        "cryptswap UUID=c6c8fd31-4f34-488e-bdad-2079c9dff4a8 /dev/urandom swap,plain,offset=1024,cipher=aes-xts-plain64,size=512",
    );
    assert!(remove_from_tab(&mut sample, "cryptswap"));
    assert_eq!(sample.as_str(), "");

    let mut sample = String::from(
        r#"cryptdata UUID=12345678-abcd-1234-abcd-123456789abc none luks
cryptswap UUID=c6c8fd31-4f34-488e-bdad-2079c9dff4a8 /dev/urandom swap,plain,offset=1024,cipher=aes-xts-plain64,size=512"#,
    );

    assert!(remove_from_tab(&mut sample, "cryptswap"));
    assert_eq!(
        sample.as_str(),
        "cryptdata UUID=12345678-abcd-1234-abcd-123456789abc none luks"
    );
}

#[test]
pub fn remove_cryptswap_from_fstab() {
    let sample = r#"# <file system>  <mount point>  <type>  <options>  <dump>  <pass>
PARTUUID=6fb88ca3-dbe0-4164-bb58-9c15a3b84e9d  /boot/efi  vfat  umask=0077  0  0
PARTUUID=4717b1ab-af1a-442e-b385-a060366c00a6  /recovery  vfat  umask=0077  0  0
UUID=2a9922b4-f519-49ca-8739-1164d82b5afc  /  ext4  noatime,errors=remount-ro  0  1
/dev/mapper/cryptswap  none  swap  defaults  0  0"#;

    let expected = r#"# <file system>  <mount point>  <type>  <options>  <dump>  <pass>
PARTUUID=6fb88ca3-dbe0-4164-bb58-9c15a3b84e9d  /boot/efi  vfat  umask=0077  0  0
PARTUUID=4717b1ab-af1a-442e-b385-a060366c00a6  /recovery  vfat  umask=0077  0  0
UUID=2a9922b4-f519-49ca-8739-1164d82b5afc  /  ext4  noatime,errors=remount-ro  0  1"#;

    let mut fstab = sample.to_owned();
    assert!(remove_from_tab(&mut fstab, "/dev/mapper/cryptswap"));
    assert_eq!(fstab.as_str(), expected);

    let sample = r#"# <file system>  <mount point>  <type>  <options>  <dump>  <pass>
PARTUUID=6fb88ca3-dbe0-4164-bb58-9c15a3b84e9d  /boot/efi  vfat  umask=0077  0  0
PARTUUID=4717b1ab-af1a-442e-b385-a060366c00a6  /recovery  vfat  umask=0077  0  0
/dev/mapper/cryptswap  none  swap  defaults  0  0
UUID=2a9922b4-f519-49ca-8739-1164d82b5afc  /  ext4  noatime,errors=remount-ro  0  1
"#;

    let expected = r#"# <file system>  <mount point>  <type>  <options>  <dump>  <pass>
PARTUUID=6fb88ca3-dbe0-4164-bb58-9c15a3b84e9d  /boot/efi  vfat  umask=0077  0  0
PARTUUID=4717b1ab-af1a-442e-b385-a060366c00a6  /recovery  vfat  umask=0077  0  0
UUID=2a9922b4-f519-49ca-8739-1164d82b5afc  /  ext4  noatime,errors=remount-ro  0  1
"#;
    let mut fstab = sample.to_owned();
    assert!(remove_from_tab(&mut fstab, "/dev/mapper/cryptswap"));
    assert_eq!(fstab.as_str(), expected);
}

#[test]
fn remove_missing_block() {
    let mut tab = String::from("cryptdata UUID=1 none luks\n");
    assert!(!remove_from_tab(&mut tab, "cryptswap"));
    assert_eq!(tab, "cryptdata UUID=1 none luks\n");
    let mut tab = String::from("cryptswap x\ncryptdata y");
    assert!(remove_from_tab(&mut tab, "cryptswap"));
    assert_eq!(tab, "\ncryptdata y");
}

#[test]
fn append_swapfile() {
    let mut fstab = String::from("# comment\n/dev/sda1  /  ext4  defaults  0  1");
    assert!(append(&mut fstab, "/swapfile", "none", "swap", "sw", "0", "0"));
    assert_eq!(fstab, "# comment\n/dev/sda1  /  ext4  defaults  0  1\n/swapfile  none  swap  sw  0  0\n");
    assert!(!append(&mut fstab, "/swapfile", "none", "swap", "sw", "0", "0"));
    assert!(append(&mut fstab, "/swapfile", "none", "swap", "defaults", "0", "0"));
    assert_eq!(fstab, "# comment\n/dev/sda1  /  ext4  defaults  0  1\n/swapfile  none  swap  defaults  0  0\n");
    let mut empty = String::new();
    assert!(append(&mut empty, "/swapfile", "none", "swap", "sw", "0", "0"));
    assert_eq!(empty, "\n/swapfile  none  swap  sw  0  0\n");
    let mut commented = String::from("#/swapfile none swap sw 0 0\n");
    assert!(append(&mut commented, "/swapfile", "none", "swap", "sw", "0", "0"));
    assert_eq!(commented, "#/swapfile none swap sw 0 0\n/swapfile  none  swap  sw  0  0\n");
}

#[test]
fn mount_by_dest() {
    let fstab = "# /boot/efi\nUUID=1  /  ext4  defaults  0  1\n  PARTUUID=2\t/boot/efi  vfat  umask=0077  0  0\n";
    let (line, source) = find_mount_by_dest(fstab, "/boot/efi").unwrap();
    assert_eq!(line, "  PARTUUID=2\t/boot/efi  vfat  umask=0077  0  0");
    assert_eq!(source, "PARTUUID=2");
    assert!(find_mount_by_dest(fstab, "/home").is_none());
}

#[test]
fn esp_update() {
    let fstab = "UUID=1  /  ext4  defaults  0  1\nPARTUUID=old  /boot/efi  vfat  umask=0077  0  0\n";
    assert_eq!(
        esp_fstab_update(fstab, None, "new").unwrap(),
        "UUID=1  /  ext4  defaults  0  1\nPARTUUID=new  /boot/efi  vfat  umask=0077  0  0\n"
    );
    let current = "PARTUUID=new  /boot/efi  vfat  umask=0077  0  0\n";
    assert!(esp_fstab_update(current, None, "new").is_none());
    assert_eq!(
        esp_fstab_update(fstab, Some("UUID=1  /  ext4  defaults  0  1"), "new").unwrap(),
        "PARTUUID=new  /boot/efi  vfat  umask=0077  0  0\nPARTUUID=old  /boot/efi  vfat  umask=0077  0  0\n"
    );
}

#[test]
fn required_mounts_in_order() {
    assert_eq!(fstab::repair(true, &Vec::new()), vec!["/", "/boot/efi"]);
    assert_eq!(fstab::repair(true, &vec![String::from("/")]), vec!["/boot/efi"]);
    assert_eq!(
        fstab::repair(true, &vec![String::from("/boot/efi"), String::from("/")]),
        Vec::<&str>::new()
    );
    assert!(fstab::repair(false, &Vec::new()).is_empty());
    assert!(mount_succeeded(Some(0)) && mount_succeeded(Some(32)));
    assert!(!mount_succeeded(Some(1)) && !mount_succeeded(None));
}

#[test]
fn first_failing_mount_stops_repair() {
    assert!(mount_outcome("/", Some(Some(32))).is_ok());
    assert!(matches!(mount_outcome("/", None), Err(FstabRepairErr::MountSpawn)));

    let points = vec!["/", "/boot/efi"];
    let (r, run) = mount_required(&points, &vec![Some(Some(0)), Some(Some(32))]);
    assert!(r.is_ok());
    assert_eq!(run, 2);

    let (r, run) = mount_required(&points, &vec![Some(Some(1)), Some(Some(0))]);
    assert!(matches!(r, Err(FstabRepairErr::Mount { mount_point: "/" })));
    assert_eq!(run, 1);
    assert_eq!(r.unwrap_err().message(), "failed to mount /");

    let (r, run) = mount_required(&points, &vec![Some(Some(0)), None]);
    assert!(matches!(r, Err(FstabRepairErr::MountSpawn)));
    assert_eq!(run, 2);
    assert_eq!(FstabRepairErr::ProcMounts.message(), "could not get mounted devices from /proc/mounts");
}

#[test]
fn replacing_an_entry_twice_changes_nothing_the_second_time() {
    let mut tab = String::from("# comment\n/swapfile none swap defaults 0 0\nUUID=1 / ext4 rw 0 1\n");
    assert!(append(&mut tab, "/swapfile", "none", "swap", "sw", "0", "0"));
    let once = tab.clone();
    assert_eq!(once, "# comment\n/swapfile  none  swap  sw  0  0\nUUID=1 / ext4 rw 0 1\n");
    assert!(!append(&mut tab, "/swapfile", "none", "swap", "sw", "0", "0"));
    assert_eq!(tab, once);
}
