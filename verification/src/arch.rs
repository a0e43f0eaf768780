//! The graphics architecture of the recovery image: NVIDIA hardware needs the `nvidia`
//! image, anything else the `intel` one.

use vstd::prelude::*;

verus! {

/// The PCI vendor id of NVIDIA.
pub const VID_NVIDIA: u16 = 0x10DE;

/// Why the architecture could not be told.
#[derive(Clone, Debug)]
pub enum ReleaseArchError {
    /// A PCI device could not be probed, for this reason.
    PciProbe(String),
    /// The vendor of a PCI device could not be read, for this reason.
    PciVendor(String),
}

impl ReleaseArchError {
    /// The text of the error.
    pub fn message(&self) -> (r: &'static str)
        ensures
            self is PciProbe ==> r@ == "error when probing PCI device"@,
            self is PciVendor ==> r@ == "error fetching vendor ID of PCI device"@,
    {
        match self {
            ReleaseArchError::PciProbe(_) => "error when probing PCI device",
            ReleaseArchError::PciVendor(_) => "error fetching vendor ID of PCI device",
        }
    }
}

/// What probing one PCI device gave: the device could not be probed, its vendor could not
/// be read, or its vendor id.
pub enum PciDevice {
    ProbeFailed(String),
    VendorFailed(String),
    Vendor(u16),
}

/// The first device, at or after `k`, that ends the search: a device that failed, or an
/// NVIDIA device.
pub open spec fn first_decisive(devices: Seq<PciDevice>, k: int) -> Option<int>
    decreases devices.len() - k,
{
    if k < 0 || k >= devices.len() {
        None
    } else if match devices[k] {
        PciDevice::Vendor(v) => v == VID_NVIDIA,
        _ => true,
    } {
        Some(k)
    } else {
        first_decisive(devices, k + 1)
    }
}

/// The architecture for the PCI devices in the order they are probed: `nvidia` once an
/// NVIDIA device is found, an error once a device fails before that, and `intel` when
/// neither happens.
pub fn detect_arch(devices: &Vec<PciDevice>) -> (r: Result<&'static str, ReleaseArchError>)
    ensures
        match first_decisive(devices@, 0) {
            None => r matches Ok(a) && a@ == "intel"@,
            Some(k) => match devices@[k] {
                PciDevice::ProbeFailed(why) => r matches Err(ReleaseArchError::PciProbe(w))
                    && w@ == why@,
                PciDevice::VendorFailed(why) => r matches Err(ReleaseArchError::PciVendor(w))
                    && w@ == why@,
                PciDevice::Vendor(_) => r matches Ok(a) && a@ == "nvidia"@,
            },
        },
{
    let mut k: usize = 0;
    while k < devices.len()
        invariant
            k <= devices.len(),
            first_decisive(devices@, 0) == first_decisive(devices@, k as int),
        decreases devices.len() - k,
    {
        match &devices[k] {
            PciDevice::ProbeFailed(why) => return Err(ReleaseArchError::PciProbe(why.clone())),
            PciDevice::VendorFailed(why) => return Err(ReleaseArchError::PciVendor(why.clone())),
            PciDevice::Vendor(v) => {
                if *v == VID_NVIDIA {
                    return Ok("nvidia");
                }
            },
        }
        k = k + 1;
    }
    Ok("intel")
}

} // verus!
