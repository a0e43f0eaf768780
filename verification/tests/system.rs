use pop_upgrade::dracut::{cryptdata_uuid, kernelstub_luks_option, luks_config};
use pop_upgrade::esp::{block_device_parent, partition_info, partition_number, same_partition};
use pop_upgrade::fs::{atomic_overwrite, ErrorKind};
use pop_upgrade::swapfile::{swapfile_plan, SwapfileError, SwapfilePlan};

use pop_upgrade::esp::{esp_conversion_plan, CryptswapTeardown, EspErr, EspPlan};

#[test]
fn cryptdata_uuid_from_crypttab() {
    let tab = "cryptswap UUID=1111 /dev/urandom swap\ncryptdata UUID=12345678-abcd none luks\n";
    assert_eq!(cryptdata_uuid(tab), Some(String::from("12345678-abcd")));
    assert_eq!(cryptdata_uuid("cryptdata /dev/sda3 none luks\n"), None);
    assert_eq!(cryptdata_uuid(""), None);
}

#[test]
fn luks_texts() {
    assert_eq!(
        luks_config("abcd"),
        "add_dracutmodules+=\" crypt lvm mdraid plymouth \"\ninstall_items+=\" /etc/crypttab \"\nkernel_cmdline+=\" rd.luks.uuid=abcd \"\n\n"
    );
    assert_eq!(kernelstub_luks_option("abcd"), "rd.luks.uuid=abcd");
}

#[test]
fn swapfile_sizes() {
    let memory: u64 = 16 * 1024 * 1024 * 1024;
    let capacity = 6553 * 1_048_576;
    assert_eq!(
        swapfile_plan(4096, 10_000_000, memory, None).unwrap(),
        SwapfilePlan::Create { capacity, replace_existing: false }
    );
    assert_eq!(swapfile_plan(4096, 10_000_000, memory, Some(capacity)).unwrap(), SwapfilePlan::AlreadySized);
    assert_eq!(
        swapfile_plan(4096, 10_000_000, memory, Some(1)).unwrap(),
        SwapfilePlan::Create { capacity, replace_existing: true }
    );
    assert_eq!(swapfile_plan(4096, 1000, memory, None).unwrap(), SwapfilePlan::NotEnoughSpace);
    assert_eq!(
        swapfile_plan(4096, 10_000_000, 1024, None).unwrap(),
        SwapfilePlan::Create { capacity: 4096 * 1_048_576, replace_existing: false }
    );
    assert!(matches!(
        swapfile_plan(-1, 10, memory, None),
        Err(SwapfileError::RootBlockSizeInvalid { size: -1 })
    ));
}

#[test]
fn esp_partition_info() {
    assert_eq!(partition_number("4\n"), "4");
    assert_eq!(partition_number("4"), "4");
    let blocks = vec![String::from("loop0"), String::from("sda"), String::from("nvme0n1")];
    assert_eq!(block_device_parent(&blocks, &vec![true, false, true]), Some(String::from("/dev/nvme0n1")));
    assert_eq!(block_device_parent(&blocks, &vec![true, false, false]), None);
    assert_eq!(
        partition_info("nvme0n1p4", Some(String::from("4")), Some(String::from("/dev/nvme0n1"))),
        Some((String::from("/dev/nvme0n1"), String::from("/dev/nvme0n1p4"), String::from("4")))
    );
    assert_eq!(partition_info("nvme0n1p4", None, Some(String::from("/dev/nvme0n1"))), None);
    assert!(same_partition("/dev/sda1", "/dev/sda1"));
    assert!(same_partition("/dev//sda1", "/dev/sda1"));
    assert!(!same_partition("/dev/sda1", "/dev/sda2"));
}

#[test]
fn atomic_overwrite_paths() {
    let plan = atomic_overwrite("/etc/fstab").unwrap();
    assert_eq!(plan.parent, "/etc");
    assert_eq!(plan.file_name, "fstab");
    assert_eq!(plan.temp_name, "fstab.partial");
    assert_eq!(plan.temp_path, "/etc/fstab.partial");
    let plan = atomic_overwrite("fstab").unwrap();
    assert_eq!(plan.parent, ".");
    assert_eq!(plan.temp_path, "fstab.partial");
    let err = atomic_overwrite("/").unwrap_err();
    assert!(matches!(err.source, ErrorKind::Parentless));
    assert_eq!(err.message(), "atomic replace of / failed");
    let err = atomic_overwrite("/etc/..").unwrap_err();
    assert!(matches!(err.source, ErrorKind::NoFileName));
}

#[test]
fn esp_conversion_plans() {
    let part = || Some(("/dev/sda".to_string(), "/dev/sda4".to_string(), "4".to_string()));
    assert_eq!(esp_conversion_plan(None, None, None).unwrap_err(), EspErr::EspNotFound);
    assert_eq!(
        esp_conversion_plan(Some("/dev/sda1".into()), Some(None), None).unwrap_err(),
        EspErr::EspEnvNotFound
    );
    assert!(matches!(esp_conversion_plan(Some("/dev/sda1".into()), None, None), Ok(EspPlan::NoSwap)));
    assert_eq!(
        esp_conversion_plan(Some("/dev/sda1".into()), None, Some((None, true, true))).unwrap_err(),
        EspErr::CryptswapPartitionNotFound
    );
    assert!(matches!(
        esp_conversion_plan(Some("/dev/sda4".into()), Some(part()), None),
        Ok(EspPlan::SameEsp { teardown: None })
    ));
    match esp_conversion_plan(Some("/dev/sda1".into()), None, Some((part(), true, false))) {
        Ok(EspPlan::Convert { disk, new_esp, number, teardown }) => {
            assert_eq!((disk.as_str(), new_esp.as_str(), number.as_str()), ("/dev/sda", "/dev/sda4", "4"));
            assert_eq!(teardown, Some(CryptswapTeardown { swapoff: true, close: false }));
        }
        other => panic!("unexpected plan: {:?}", other),
    }
    assert_eq!(EspErr::EspEnvNotFound.message(), "defined ESP_DEVICE cannot be found");
}
