//! What is decided about a GPU before it is used: whether the configured
//! device exists, how many of its cores work, and whether its memory holds
//! the plots.

use vstd::prelude::*;

verus! {

/// One configured GPU.
#[derive(Clone, Copy, Debug)]
pub struct GpuConfig {
    pub platform_id: usize,
    pub device_id: usize,
    pub cores: usize,
}

/// Why a configured GPU cannot be used.
#[derive(Clone, Copy, Debug, PartialEq, Eq)]
pub enum GpuError {
    /// The platform index is beyond the platforms of the machine.
    NoSuchPlatform,
    /// The device index is beyond the devices of the platform.
    NoSuchDevice,
    /// The plots of all cores in use do not fit into the memory of the
    /// device.
    OutOfMemory,
}

impl GpuError {
    /// The message with which the program gives up.
    pub fn message(&self) -> (m: &'static str)
        ensures
            m@ == (match self {
                GpuError::NoSuchPlatform => "Error: Selected OpenCL platform doesn't exist."@,
                GpuError::NoSuchDevice => "Error: Selected OpenCL device doesn't exist"@,
                GpuError::OutOfMemory => "Error: Not enough GPU-memory. Please reduce number of cores."@,
            }),
    {
        match self {
            GpuError::NoSuchPlatform => "Error: Selected OpenCL platform doesn't exist.",
            GpuError::NoSuchDevice => "Error: Selected OpenCL device doesn't exist",
            GpuError::OutOfMemory => "Error: Not enough GPU-memory. Please reduce number of cores.",
        }
    }
}

/// Bytes of device memory that one work item of the plotting kernel needs:
/// one plot.
pub const BYTES_PER_WORK_ITEM: u64 = 262144;

impl GpuConfig {
    /// The cores of the device that are reported as in use: all
    /// `max_compute_units` where none are configured, else the configured
    /// number, and no more than the device has.
    pub open spec fn cores_in_use(&self, max_compute_units: u32) -> int {
        if self.cores == 0 || self.cores > max_compute_units {
            max_compute_units as int
        } else {
            self.cores as int
        }
    }

    /// The cores that the worker of the device uses: all `max_compute_units`
    /// where none are configured, else the configured number, and no more
    /// than twice what the device reports.
    pub open spec fn cores_for_worker(&self, max_compute_units: u32) -> int {
        if self.cores == 0 {
            max_compute_units as int
        } else if self.cores > 2 * max_compute_units {
            2 * max_compute_units
        } else {
            self.cores as int
        }
    }

    /// Checks that the platform is one of the `platforms` of the machine.
    pub fn check_platform(&self, platforms: usize) -> (r: Result<(), GpuError>)
        ensures
            r == (if self.platform_id < platforms {
                Ok::<(), GpuError>(())
            } else {
                Err(GpuError::NoSuchPlatform)
            }),
    {
        if self.platform_id >= platforms {
            Err(GpuError::NoSuchPlatform)
        } else {
            Ok(())
        }
    }

    /// Checks that the device is one of the `devices` of its platform.
    pub fn check_device(&self, devices: usize) -> (r: Result<(), GpuError>)
        ensures
            r == (if self.device_id < devices {
                Ok::<(), GpuError>(())
            } else {
                Err(GpuError::NoSuchDevice)
            }),
    {
        if self.device_id >= devices {
            Err(GpuError::NoSuchDevice)
        } else {
            Ok(())
        }
    }

    /// Checks that the device, with `memory` bytes, holds one plot for each
    /// work item of the cores in use, `workgroup_size` items a core, and
    /// returns the number of cores in use.
    pub fn check_memory(&self, max_compute_units: u32, workgroup_size: usize, memory: u64) -> (r:
        Result<usize, GpuError>)
        ensures
            r == (if self.cores_in_use(max_compute_units) * workgroup_size * BYTES_PER_WORK_ITEM
                <= memory {
                Ok::<usize, GpuError>(self.cores_in_use(max_compute_units) as usize)
            } else {
                Err(GpuError::OutOfMemory)
            }),
    {
        let cores: usize = if self.cores == 0 || self.cores as u64 > max_compute_units as u64 {
            max_compute_units as usize
        } else {
            self.cores
        };
        assert(cores * workgroup_size <= u128::MAX) by (nonlinear_arith)
            requires
                cores <= u64::MAX,
                workgroup_size <= u64::MAX,
        ;
        let items: u128 = cores as u128 * workgroup_size as u128;
        let room: u128 = (memory / BYTES_PER_WORK_ITEM) as u128;
        assert(items <= room <==> cores * workgroup_size * BYTES_PER_WORK_ITEM <= memory)
            by (nonlinear_arith)
            requires
                items == cores * workgroup_size,
                room == memory / BYTES_PER_WORK_ITEM,
                BYTES_PER_WORK_ITEM == 262144,
        ;
        if items <= room {
            Ok(cores)
        } else {
            Err(GpuError::OutOfMemory)
        }
    }

    /// The number of cores that the worker of the device uses.
    pub fn worker_cores(&self, max_compute_units: u32) -> (cores: usize)
        ensures
            cores == self.cores_for_worker(max_compute_units),
    {
        if self.cores == 0 {
            max_compute_units as usize
        } else if self.cores as u64 > 2 * (max_compute_units as u64) {
            (2 * (max_compute_units as u64)) as usize
        } else {
            self.cores
        }
    }
}

/// The number of nonces that a device takes at once: one for each work item
/// of the cores in use. `None` where the number does not fit the machine.
pub fn worksize(workgroup_size: usize, cores: usize) -> (w: Option<usize>)
    ensures
        w == (if workgroup_size * cores <= usize::MAX {
            Some((workgroup_size * cores) as usize)
        } else {
            None
        }),
{
    workgroup_size.checked_mul(cores)
}

} // verus!
