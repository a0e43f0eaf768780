//! Moving the EFI system partition onto the old encrypted-swap partition: finding that
//! partition's disk and number.

use vstd::prelude::*;

use crate::fstab::{path_eq, std_path_eq};
use crate::text::{chars_of, ends_with, has_prefix, has_suffix, slice, starts_with, string_of};

verus! {

pub const CRYPTSWAP_PATH: &'static str = "/dev/mapper/cryptswap";

pub const CRYPTTAB_PATH: &'static str = "/etc/crypttab";

pub const EFI_PART_TYPE: &'static str = "C12A7328-F81F-11D2-BA4B-00A0C93EC93B";

pub const EFI_PATH: &'static str = "/boot/efi";

/// The partition number that `/sys/class/block/<name>/partition` holds, without the newline
/// that ends the file.
pub fn partition_number(contents: &str) -> (r: String)
    ensures
        has_suffix(contents@, "\n"@) ==> r@ == contents@.drop_last(),
        !has_suffix(contents@, "\n"@) ==> r@ == contents@,
{
    let text = chars_of(contents);
    proof {
        reveal_strlit("\n");
    }
    if ends_with(&text, &chars_of("\n")) {
        string_of(&slice(&text, 0, text.len() - 1))
    } else {
        string_of(&text)
    }
}

/// The first block device, other than a loop device, whose directory in `/sys/block` holds
/// `name`.
pub open spec fn first_parent(blocks: Seq<Seq<char>>, holds: Seq<bool>, k: int) -> Option<int>
    decreases blocks.len() - k,
{
    if k < 0 || k >= blocks.len() {
        None
    } else if !has_prefix(blocks[k], "loop"@) && holds[k] {
        Some(k)
    } else {
        first_parent(blocks, holds, k + 1)
    }
}

/// The disk that holds a partition: `/dev/` and the first block device of `blocks` (the
/// entries of `/sys/block`) that is not a loop device and whose directory holds the
/// partition (`holds`).
pub fn block_device_parent(blocks: &Vec<String>, holds: &Vec<bool>) -> (r: Option<String>)
    requires
        blocks.len() == holds.len(),
    ensures
        match first_parent(crate::text::string_views(blocks@), holds@, 0) {
            Some(k) => r matches Some(p) && p@ == "/dev/"@ + blocks@[k]@,
            None => r is None,
        },
{
    let lp = chars_of("loop");
    proof {
        reveal_strlit("loop");
    }
    let mut k: usize = 0;
    while k < blocks.len()
        invariant
            k <= blocks.len(),
            blocks.len() == holds.len(),
            lp@ == "loop"@,
            first_parent(crate::text::string_views(blocks@), holds@, 0) == first_parent(
                crate::text::string_views(blocks@),
                holds@,
                k as int,
            ),
        decreases blocks.len() - k,
    {
        assert(crate::text::string_views(blocks@)[k as int] == blocks@[k as int]@);
        if !starts_with(&chars_of(blocks[k].as_str()), &lp) && holds[k] {
            let mut p = String::new();
            p.append("/dev/");
            p.append(blocks[k].as_str());
            return Some(p);
        }
        k = k + 1;
    }
    None
}

/// A partition's disk, device path and number, from the partition's name (`nvme0n1p4`
/// gives `/dev/nvme0n1`, `/dev/nvme0n1p4` and `4`): none without a number or a disk.
pub fn partition_info(name: &str, number: Option<String>, disk: Option<String>) -> (r: Option<
    (String, String, String),
>)
    ensures
        match (number, disk) {
            (Some(n), Some(d)) => r matches Some(info) && info.0 == d && info.1@ == "/dev/"@
                + name@ && info.2 == n,
            _ => r is None,
        },
{
    match (number, disk) {
        (Some(n), Some(d)) => {
            let mut path = String::new();
            path.append("/dev/");
            path.append(name);
            Some((d, path, n))
        },
        _ => None,
    }
}

/// Whether the new EFI partition is the one already in use, so that nothing is moved.
pub fn same_partition(old_esp: &str, new_esp: &str) -> (r: bool)
    ensures
        r == std_path_eq(old_esp@, new_esp@),
{
    path_eq(old_esp, new_esp)
}

/// Why the EFI partition cannot be moved.
#[derive(Clone, Copy, Debug, PartialEq, Eq, Structural)]
pub enum EspErr {
    /// Nothing is mounted at `/boot/efi`.
    EspNotFound,
    /// `ESP_DEVICE` names a partition that cannot be found.
    EspEnvNotFound,
    /// The partition under the encrypted swap device cannot be found.
    CryptswapPartitionNotFound,
}

impl EspErr {
    pub fn message(&self) -> (r: &'static str)
        ensures
            r@ == self.spec_message(),
    {
        match self {
            EspErr::EspNotFound => "EFI partition could not be found",
            EspErr::EspEnvNotFound => "defined ESP_DEVICE cannot be found",
            EspErr::CryptswapPartitionNotFound => "partition of cryptswap could not be found",
        }
    }

    pub open spec fn spec_message(&self) -> Seq<char> {
        match self {
            EspErr::EspNotFound => "EFI partition could not be found"@,
            EspErr::EspEnvNotFound => "defined ESP_DEVICE cannot be found"@,
            EspErr::CryptswapPartitionNotFound => "partition of cryptswap could not be found"@,
        }
    }
}

/// What is done to the encrypted swap before its partition is reused: `swapoff` when it is
/// swapped on, `cryptsetup close` when the device exists; its lines always leave fstab and
/// crypttab.
#[derive(Clone, Copy, Debug, PartialEq, Eq, Structural)]
pub struct CryptswapTeardown {
    pub swapoff: bool,
    pub close: bool,
}

/// The course of the EFI partition move.
#[derive(Debug)]
pub enum EspPlan {
    /// No `ESP_DEVICE` and no encrypted swap: nothing to convert.
    NoSwap,
    /// The new partition is the EFI partition in use: only the teardown, if any, is done.
    SameEsp { teardown: Option<CryptswapTeardown> },
    /// The teardown, if any, then the partition `new_esp` (number `number` on `disk`) becomes
    /// the EFI partition.
    Convert { disk: String, new_esp: String, number: String, teardown: Option<CryptswapTeardown> },
}

/// The plan for a partition found at `new_esp` (on `disk`, number `number`) after `teardown`.
pub open spec fn spec_esp_target(
    old_esp: Seq<char>,
    disk: String,
    new_esp: String,
    number: String,
    teardown: Option<CryptswapTeardown>,
) -> EspPlan {
    if std_path_eq(old_esp, new_esp@) {
        EspPlan::SameEsp { teardown }
    } else {
        EspPlan::Convert { disk, new_esp, number, teardown }
    }
}

/// The decisions of moving the EFI partition onto the encrypted-swap partition.
///
/// `old_esp` is the source mounted at `/boot/efi`; `esp_device` is present when `ESP_DEVICE`
/// is set, with the partition it names if found; `cryptswap` is present when the encrypted
/// swap device resolves, with its partition if found, whether it is swapped on and whether the
/// device exists. `ESP_DEVICE` takes precedence over the encrypted swap.
pub fn esp_conversion_plan(
    old_esp: Option<String>,
    esp_device: Option<Option<(String, String, String)>>,
    cryptswap: Option<(Option<(String, String, String)>, bool, bool)>,
) -> (r: Result<EspPlan, EspErr>)
    ensures
        match old_esp {
            None => r == Err::<EspPlan, EspErr>(EspErr::EspNotFound),
            Some(old) => match esp_device {
                Some(None) => r == Err::<EspPlan, EspErr>(EspErr::EspEnvNotFound),
                Some(Some((disk, new_esp, number))) => r == Ok::<EspPlan, EspErr>(
                    spec_esp_target(old@, disk, new_esp, number, None),
                ),
                None => match cryptswap {
                    None => r == Ok::<EspPlan, EspErr>(EspPlan::NoSwap),
                    Some((None, _, _)) => r == Err::<EspPlan, EspErr>(
                        EspErr::CryptswapPartitionNotFound,
                    ),
                    Some((Some((disk, new_esp, number)), swapped, exists)) => r == Ok::<
                        EspPlan,
                        EspErr,
                    >(
                        spec_esp_target(
                            old@,
                            disk,
                            new_esp,
                            number,
                            Some(CryptswapTeardown { swapoff: swapped, close: exists }),
                        ),
                    ),
                },
            },
        },
{
    let old = match old_esp {
        Some(old) => old,
        None => return Err(EspErr::EspNotFound),
    };
    let (disk, new_esp, number, teardown) = match esp_device {
        Some(Some((disk, new_esp, number))) => (disk, new_esp, number, None),
        Some(None) => return Err(EspErr::EspEnvNotFound),
        None => match cryptswap {
            None => return Ok(EspPlan::NoSwap),
            Some((None, _, _)) => return Err(EspErr::CryptswapPartitionNotFound),
            Some((Some((disk, new_esp, number)), swapped, exists)) => (
                disk,
                new_esp,
                number,
                Some(CryptswapTeardown { swapoff: swapped, close: exists }),
            ),
        },
    };
    if same_partition(old.as_str(), new_esp.as_str()) {
        Ok(EspPlan::SameEsp { teardown })
    } else {
        Ok(EspPlan::Convert { disk, new_esp, number, teardown })
    }
}

} // verus!
