use gpu_usage::error::GpuError;

#[test]
fn each_error_has_its_diagnostic() {
    assert_eq!(GpuError::InvalidOption.message(), "Invalid output option");
    assert_eq!(GpuError::NvmlUnavailable.message(), "Nvml not installed.");
    assert_eq!(GpuError::DeviceNotFound.message(), "Could not find NVIDIA device.");
    assert_eq!(GpuError::MemoryInfo.message(), "Error gathering memory info");
    assert_eq!(GpuError::ClockInfo.message(), "Error gathering clock info");
    assert_eq!(GpuError::TemperatureInfo.message(), "Error gathering temperature info");
    assert_eq!(GpuError::UtilizationInfo.message(), "Error gathering utilization info");
    assert!(GpuError::NoTotalMemory.message().contains("total memory is zero"));
}

#[test]
fn diagnostics_are_pairwise_distinct_but_for_nothing() {
    let all = [
        GpuError::InvalidOption,
        GpuError::NvmlUnavailable,
        GpuError::DeviceNotFound,
        GpuError::MemoryInfo,
        GpuError::NoTotalMemory,
        GpuError::ClockInfo,
        GpuError::TemperatureInfo,
        GpuError::UtilizationInfo,
    ];
    for (i, a) in all.iter().enumerate() {
        for (j, b) in all.iter().enumerate() {
            assert_eq!(a.message() == b.message(), i == j);
        }
    }
}
