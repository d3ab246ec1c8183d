use vstd::prelude::*;
use vstd::string::StringExecFns;

verus! {

/// Number of devices the harness needs: one per worker loop.
pub const REQUIRED_DEVICES: i32 = 2;

/// Why the harness cannot start.
#[derive(Clone, Copy, Debug, PartialEq, Eq, Structural)]
pub enum StartupError {
    /// The driver reports fewer devices than the harness needs.
    InsufficientDevices { found: i32 },
}

/// Which device each worker loop runs against.
#[derive(Clone, Copy, Debug, PartialEq, Eq, Structural)]
pub struct DevicePlan {
    /// Ordinal of the device that the allocator loop uses.
    pub alloc_device: usize,
    /// Ordinal of the device that the copy loop uses.
    pub copy_device: usize,
}

/// The text reported when too few devices are present.
pub open spec fn insufficient_devices_text() -> Seq<char> {
    "This program requires at least 2 CUDA devices."@
}

impl StartupError {
    /// The human-readable message for this error.
    pub fn message(&self) -> (r: String)
        ensures
            r@ == insufficient_devices_text(),
    {
        let mut s = String::new();
        s.append("This program requires at least 2 CUDA devices.");
        assert(s@ =~= insufficient_devices_text());
        s
    }
}

/// Decides from the number of devices the driver reports whether the harness
/// may start, and if so which device each loop gets. The two loops always get
/// two distinct devices: the first two ordinals.
pub fn plan_devices(device_count: i32) -> (r: Result<DevicePlan, StartupError>)
    ensures
        r is Ok <==> device_count >= REQUIRED_DEVICES,
        r is Ok ==> r->Ok_0 == (DevicePlan { alloc_device: 0, copy_device: 1 }),
        r is Err ==> r->Err_0 == (StartupError::InsufficientDevices { found: device_count }),
{
    if device_count < REQUIRED_DEVICES {
        Err(StartupError::InsufficientDevices { found: device_count })
    } else {
        Ok(DevicePlan { alloc_device: 0, copy_device: 1 })
    }
}

} // verus!
