//! Sizing of the swap file.

use vstd::prelude::*;

verus! {

pub const SWAPFILE_PATH: &'static str = "/swapfile";

pub const MEBIBYTE: u64 = 1_048_576;

/// Space kept free on the root file system, in MiB.
pub const RESERVED_MIB: u64 = 20480;

/// The smallest swap file, in MiB.
pub const MIN_SWAP_MIB: u64 = 4096;

#[derive(Debug)]
pub enum SwapfileError {
    /// invalid root block size
    RootBlockSizeInvalid { size: i64 },
}

/// What to do about the swap file.
#[derive(Clone, Copy, Debug, PartialEq, Eq, Structural)]
pub enum SwapfilePlan {
    /// Less than 20 GiB is free on the root file system: nothing is done.
    NotEnoughSpace,
    /// The swap file already has the wanted size.
    AlreadySized,
    /// The swap file is (re)created with this many bytes; an existing one is turned off and
    /// removed first.
    Create { capacity: u64, replace_existing: bool },
}

/// The swap file capacity in bytes, or `None` when less than 20 GiB is free: up to 40% of
/// the physical memory, leaving 20 GiB of the available space free, but never less than
/// 4 GiB.
pub open spec fn spec_capacity(block_size: nat, f_bavail: nat, total_memory: nat) -> Option<nat> {
    let available_mib = f_bavail * block_size / 1_048_576;
    let max_swapfile = total_memory / 1_048_576 * 10 / 25;
    if available_mib < 20480 {
        None
    } else {
        let disk_limit = (available_mib - 20480) as nat;
        let m = if max_swapfile <= disk_limit {
            max_swapfile
        } else {
            disk_limit
        };
        let c = if m >= 4096 {
            m
        } else {
            4096
        };
        Some(c * 1_048_576)
    }
}

/// The sizing rule of the swap file, stated by its bounds. With `available` MiB free on the
/// root file system and 40% of the memory being `wanted` MiB:
/// - under 20 GiB free, no swap file is planned;
/// - otherwise the capacity is a whole number of MiB and at least 4 GiB;
/// - above 4 GiB it neither exceeds `wanted` nor leaves less than 20 GiB free;
/// - it is as large as both limits allow: at least the smaller of `wanted` and the space above
///   the 20 GiB reserve.
pub proof fn law_swapfile_capacity_bounds(block_size: nat, f_bavail: nat, total_memory: nat)
    ensures
        ({
            let available = f_bavail * block_size / 1_048_576;
            let wanted = total_memory / 1_048_576 * 10 / 25;
            &&& spec_capacity(block_size, f_bavail, total_memory) is None <==> available < 20480
            &&& spec_capacity(block_size, f_bavail, total_memory) matches Some(c) ==> {
                &&& c % 1_048_576 == 0
                &&& c >= 4096 * 1_048_576
                &&& c > 4096 * 1_048_576 ==> c <= wanted * 1_048_576 && c <= (available - 20480)
                    * 1_048_576
                &&& (c >= wanted * 1_048_576 || c >= (available - 20480) * 1_048_576)
            }
        }),
{
    let available = f_bavail * block_size / 1_048_576;
    let wanted = total_memory / 1_048_576 * 10 / 25;
    if available >= 20480 {
        let disk_limit = (available - 20480) as nat;
        let m = if wanted <= disk_limit {
            wanted
        } else {
            disk_limit
        };
        let c = if m >= 4096 {
            m
        } else {
            4096
        };
        assert((c * 1_048_576) % 1_048_576 == 0) by (nonlinear_arith);
        assert(c >= 4096 ==> c * 1_048_576 >= 4096 * 1_048_576) by (nonlinear_arith);
        assert(c * 1_048_576 > 4096 * 1_048_576 ==> c > 4096) by (nonlinear_arith);
        assert(c <= wanted ==> c * 1_048_576 <= wanted * 1_048_576) by (nonlinear_arith);
        assert(c <= disk_limit ==> c * 1_048_576 <= disk_limit * 1_048_576) by (nonlinear_arith);
        assert(c >= wanted ==> c * 1_048_576 >= wanted * 1_048_576) by (nonlinear_arith);
        assert(c >= disk_limit ==> c * 1_048_576 >= disk_limit * 1_048_576) by (nonlinear_arith);
    }
}

/// Decides about the swap file from the root file system's block size (`f_bsize`) and
/// available blocks (`f_bavail`), the physical memory in bytes, and the size of an existing
/// swap file.
pub fn swapfile_plan(f_bsize: i64, f_bavail: u64, total_memory: u64, existing_len: Option<u64>) -> (r:
    Result<SwapfilePlan, SwapfileError>)
    requires
        f_bsize >= 0 ==> f_bavail * f_bsize <= u64::MAX,
    ensures
        f_bsize < 0 ==> (r matches Err(SwapfileError::RootBlockSizeInvalid { size }) && size
            == f_bsize),
        f_bsize >= 0 ==> match spec_capacity(f_bsize as nat, f_bavail as nat, total_memory as nat) {
            None => r matches Ok(SwapfilePlan::NotEnoughSpace),
            Some(c) => match existing_len {
                Some(len) => if len == c {
                    r matches Ok(SwapfilePlan::AlreadySized)
                } else {
                    r == Ok::<SwapfilePlan, SwapfileError>(
                        SwapfilePlan::Create { capacity: c as u64, replace_existing: true },
                    )
                },
                None => r == Ok::<SwapfilePlan, SwapfileError>(
                    SwapfilePlan::Create { capacity: c as u64, replace_existing: false },
                ),
            },
        },
{
    if f_bsize < 0 {
        return Err(SwapfileError::RootBlockSizeInvalid { size: f_bsize });
    }
    let block_size = f_bsize as u64;
    let available_mib = f_bavail * block_size / MEBIBYTE;
    let max_swapfile = total_memory / MEBIBYTE * 10 / 25;
    if available_mib < RESERVED_MIB {
        return Ok(SwapfilePlan::NotEnoughSpace);
    }
    let disk_limit = available_mib - RESERVED_MIB;
    let m = if max_swapfile <= disk_limit {
        max_swapfile
    } else {
        disk_limit
    };
    let c = if m >= MIN_SWAP_MIB {
        m
    } else {
        MIN_SWAP_MIB
    };
    assert(c * 1_048_576 <= u64::MAX) by (nonlinear_arith)
        requires
            c <= 4096 || c <= available_mib,
            available_mib == f_bavail * block_size / 1_048_576,
            f_bavail * block_size <= u64::MAX,
    ;
    let capacity = c * MEBIBYTE;
    match existing_len {
        Some(len) => if len == capacity {
            Ok(SwapfilePlan::AlreadySized)
        } else {
            Ok(SwapfilePlan::Create { capacity, replace_existing: true })
        },
        None => Ok(SwapfilePlan::Create { capacity, replace_existing: false }),
    }
}

} // verus!
