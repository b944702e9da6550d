use gpu_usage::device::{at_stage, first_device, get_temperature, init_nvml, run_once};
use gpu_usage::error::GpuError;
use gpu_usage::selector::OutputOption;
use nvml_wrapper::error::NvmlError;

#[test]
fn a_vendor_failure_takes_the_label_of_its_stage() {
    for stage in [
        GpuError::NvmlUnavailable,
        GpuError::DeviceNotFound,
        GpuError::MemoryInfo,
        GpuError::ClockInfo,
        GpuError::TemperatureInfo,
        GpuError::UtilizationInfo,
    ] {
        assert_eq!(at_stage::<u32>(Err(NvmlError::Unknown), stage), Err(stage));
        assert_eq!(at_stage::<u32>(Err(NvmlError::GpuLost), stage), Err(stage));
        assert_eq!(at_stage::<u32>(Err(NvmlError::NotSupported), stage), Err(stage));
    }
}

#[test]
fn a_vendor_success_is_handed_on() {
    assert_eq!(at_stage::<u32>(Ok(1530), GpuError::ClockInfo), Ok(1530));
    assert_eq!(at_stage::<u64>(Ok(0), GpuError::MemoryInfo), Ok(0));
}

#[test]
fn acquiring_fails_only_with_the_error_of_its_stage() {
    match init_nvml() {
        Err(e) => assert_eq!(e, GpuError::NvmlUnavailable),
        Ok(nvml) => match first_device(&nvml) {
            Err(e) => assert_eq!(e, GpuError::DeviceNotFound),
            Ok(device) => {
                match get_temperature(&device) {
                    Ok(line) => assert!(line.ends_with(" C")),
                    Err(e) => assert_eq!(e, GpuError::TemperatureInfo),
                }
                match run_once(OutputOption::MemTotalMb, &device) {
                    Ok(line) => assert!(line.ends_with(" MB")),
                    Err(e) => assert_eq!(e, GpuError::MemoryInfo),
                }
            }
        },
    }
}
