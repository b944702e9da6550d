//! The one error type of the library: which stage failed.

use vstd::prelude::*;
use vstd::string::*;

verus! {

/// The stage at which a run failed. Every failure is final: nothing is retried
/// and no line of normal output is produced.
#[derive(Debug, Clone, Copy, PartialEq, Eq, Structural)]
pub enum GpuError {
    /// The command-line flag is not one of the known flags.
    InvalidOption,
    /// The vendor subsystem could not be initialised.
    NvmlUnavailable,
    /// No device exists at the fixed index.
    DeviceNotFound,
    /// The memory snapshot could not be fetched.
    MemoryInfo,
    /// The snapshot reports no installed memory, so no percentage of it exists.
    NoTotalMemory,
    /// A clock frequency could not be fetched.
    ClockInfo,
    /// The temperature could not be fetched.
    TemperatureInfo,
    /// The utilization snapshot could not be fetched.
    UtilizationInfo,
}

impl GpuError {
    /// The diagnostic line of each failure.
    pub open spec fn message_text(self) -> Seq<char> {
        match self {
            GpuError::InvalidOption => "Invalid output option"@,
            GpuError::NvmlUnavailable => "Nvml not installed."@,
            GpuError::DeviceNotFound => "Could not find NVIDIA device."@,
            GpuError::MemoryInfo => "Error gathering memory info"@,
            GpuError::NoTotalMemory => "Error computing memory percentage: total memory is zero"@,
            GpuError::ClockInfo => "Error gathering clock info"@,
            GpuError::TemperatureInfo => "Error gathering temperature info"@,
            GpuError::UtilizationInfo => "Error gathering utilization info"@,
        }
    }

    /// The diagnostic line that replaces normal output when a run fails.
    pub fn message(&self) -> (text: String)
        ensures
            text@ == self.message_text(),
    {
        match self {
            GpuError::InvalidOption => String::from_str("Invalid output option"),
            GpuError::NvmlUnavailable => String::from_str("Nvml not installed."),
            GpuError::DeviceNotFound => String::from_str("Could not find NVIDIA device."),
            GpuError::MemoryInfo => String::from_str("Error gathering memory info"),
            GpuError::NoTotalMemory => String::from_str(
                "Error computing memory percentage: total memory is zero",
            ),
            GpuError::ClockInfo => String::from_str("Error gathering clock info"),
            GpuError::TemperatureInfo => String::from_str("Error gathering temperature info"),
            GpuError::UtilizationInfo => String::from_str("Error gathering utilization info"),
        }
    }
}

} // verus!
