//! The device: the vendor calls, and the report that each metric makes of what
//! they return.
//!
//! What the device answers depends on the machine, so nothing is claimed of a
//! query's result. Every report states instead which outcomes it can have, and
//! `dispatch::render` fixes the text for each reading.

use vstd::prelude::*;
use nvml_wrapper::enum_wrappers::device::{Clock, ClockId, TemperatureSensor};
use nvml_wrapper::error::NvmlError;
use nvml_wrapper::{Device, Nvml};
use crate::error::GpuError;
use crate::dispatch::{render, report_text, Query, Sample};
use crate::metrics::{text_view, MemoryInfo, UtilizationInfo};
use crate::selector::OutputOption;

verus! {

/// `nvml_wrapper::Nvml`: the vendor subsystem, once initialised. Opaque here.
#[verifier::external_type_specification]
#[verifier::external_body]
pub struct ExNvml(Nvml);

/// `nvml_wrapper::Device`: a handle to one device, borrowed from the subsystem.
/// Opaque here.
#[verifier::external_type_specification]
#[verifier::external_body]
pub struct ExDevice<'nvml>(Device<'nvml>);

/// `nvml_wrapper::error::NvmlError`: the vendor subsystem's own error. Opaque
/// here: only the stage at which it occurred is kept.
#[verifier::external_type_specification]
#[verifier::external_body]
pub struct ExNvmlError(NvmlError);

/// The index of the one device that is read.
pub const DEVICE_INDEX: u32 = 0;

/// Which frequency of the graphics clock is asked for.
#[derive(Debug, Clone, Copy, PartialEq, Eq, Structural)]
pub enum ClockKind {
    /// The frequency the clock runs at now.
    Current,
    /// The highest boost frequency the vendor allows.
    MaxBoost,
}

/// Calls `Nvml::init`, which loads the vendor library and initialises it.
/// Whether that succeeds depends on the machine: nothing is claimed of the result.
#[verifier::external_body]
fn nvml_init() -> (outcome: Result<Nvml, NvmlError>) {
    Nvml::init()
}

/// Calls `Nvml::device_by_index`, which asks the subsystem for the handle of the
/// device at `index`. Nothing is claimed of the result.
#[verifier::external_body]
fn nvml_device_by_index<'nvml>(nvml: &'nvml Nvml, index: u32) -> (outcome: Result<
    Device<'nvml>,
    NvmlError,
>) {
    nvml.device_by_index(index)
}

/// Calls `Device::memory_info` and copies the byte counts of the snapshot.
/// Nothing is claimed of the result.
#[verifier::external_body]
fn device_memory_info(device: &Device<'_>) -> (outcome: Result<MemoryInfo, NvmlError>) {
    match device.memory_info() {
        Ok(info) => Ok(MemoryInfo { total: info.total, used: info.used, free: info.free }),
        Err(e) => Err(e),
    }
}

/// Calls `Device::clock` for the graphics clock, with the clock id that `kind`
/// stands for. The frequency is in MHz. Nothing is claimed of the result.
#[verifier::external_body]
fn device_graphics_clock(device: &Device<'_>, kind: ClockKind) -> (outcome: Result<
    u32,
    NvmlError,
>) {
    let id = match kind {
        ClockKind::Current => ClockId::Current,
        ClockKind::MaxBoost => ClockId::CustomerMaxBoost,
    };
    device.clock(Clock::Graphics, id)
}

/// Calls `Device::temperature` for the sensor on the GPU die. The reading is in
/// degrees Celsius. Nothing is claimed of the result.
#[verifier::external_body]
fn device_gpu_temperature(device: &Device<'_>) -> (outcome: Result<u32, NvmlError>) {
    device.temperature(TemperatureSensor::Gpu)
}

/// Calls `Device::utilization_rates` and copies the two percentages of the
/// snapshot. Nothing is claimed of the result.
#[verifier::external_body]
fn device_utilization_rates(device: &Device<'_>) -> (outcome: Result<
    UtilizationInfo,
    NvmlError,
>) {
    match device.utilization_rates() {
        Ok(rates) => Ok(UtilizationInfo { gpu_percent: rates.gpu, memory_percent: rates.memory }),
        Err(e) => Err(e),
    }
}

/// Labels a vendor failure with the stage at which it occurred. A success is
/// handed on unchanged.
pub fn at_stage<T>(outcome: Result<T, NvmlError>, stage: GpuError) -> (r: Result<T, GpuError>)
    ensures
        outcome is Ok ==> r == Ok::<T, GpuError>(outcome->Ok_0),
        outcome is Err ==> r == Err::<T, GpuError>(stage),
{
    match outcome {
        Ok(value) => Ok(value),
        Err(_) => Err(stage),
    }
}

/// Initialises the vendor subsystem. A failure is `NvmlUnavailable`.
pub fn init_nvml() -> (r: Result<Nvml, GpuError>)
    ensures
        r is Err ==> r->Err_0 == GpuError::NvmlUnavailable,
{
    at_stage(nvml_init(), GpuError::NvmlUnavailable)
}

/// Opens the device at `DEVICE_INDEX`. A failure is `DeviceNotFound`.
pub fn first_device<'nvml>(nvml: &'nvml Nvml) -> (r: Result<Device<'nvml>, GpuError>)
    ensures
        r is Err ==> r->Err_0 == GpuError::DeviceNotFound,
{
    at_stage(nvml_device_by_index(nvml, DEVICE_INDEX), GpuError::DeviceNotFound)
}

/// The outcomes that a report of the metric `option` can have: the failure of
/// its query, or the line of some reading of the kind that the query gives.
pub open spec fn is_report_of(option: OutputOption, r: Result<Seq<char>, GpuError>) -> bool {
    r == Err::<Seq<char>, GpuError>(option.query().failure()) || exists|sample: Sample|
        sample.answers(option.query()) && r == #[trigger] report_text(option, sample)
}

/// Asks the device the one query `query`, afresh.
pub fn take_sample(device: &Device<'_>, query: Query) -> (r: Result<Sample, GpuError>)
    ensures
        r is Ok ==> r->Ok_0.answers(query),
        r is Err ==> r->Err_0 == query.failure(),
{
    match query {
        Query::Memory => match at_stage(device_memory_info(device), GpuError::MemoryInfo) {
            Ok(memory_info) => Ok(Sample::Memory(memory_info)),
            Err(e) => Err(e),
        },
        Query::CurrentClock => match at_stage(
            device_graphics_clock(device, ClockKind::Current),
            GpuError::ClockInfo,
        ) {
            Ok(clock_speed) => Ok(Sample::Clock(clock_speed)),
            Err(e) => Err(e),
        },
        Query::MaxBoostClock => match at_stage(
            device_graphics_clock(device, ClockKind::MaxBoost),
            GpuError::ClockInfo,
        ) {
            Ok(clock_speed) => Ok(Sample::Clock(clock_speed)),
            Err(e) => Err(e),
        },
        Query::Temperature => match at_stage(
            device_gpu_temperature(device),
            GpuError::TemperatureInfo,
        ) {
            Ok(temperature) => Ok(Sample::Temperature(temperature)),
            Err(e) => Err(e),
        },
        Query::Utilization => match at_stage(
            device_utilization_rates(device),
            GpuError::UtilizationInfo,
        ) {
            Ok(utilization) => Ok(Sample::Utilization(utilization)),
            Err(e) => Err(e),
        },
    }
}

/// Takes one sample of the metric `option`: exactly one query, then the
/// conversion and the text of that metric.
pub fn run_once(option: OutputOption, device: &Device<'_>) -> (r: Result<String, GpuError>)
    ensures
        is_report_of(option, text_view(r)),
{
    match take_sample(device, option.query_of()) {
        Ok(sample) => {
            let r = render(option, &sample);
            assert(text_view(r) == report_text(option, sample));
            r
        },
        Err(e) => Err(e),
    }
}

/// Used memory as a percentage of total memory, from a fresh snapshot.
pub fn get_used_memory_percentage(device: &Device<'_>) -> (r: Result<String, GpuError>)
    ensures
        is_report_of(OutputOption::MemUsagePercentage, text_view(r)),
{
    run_once(OutputOption::MemUsagePercentage, device)
}

/// Used memory in mebibytes, from a fresh snapshot.
pub fn get_used_memory_mb(device: &Device<'_>) -> (r: Result<String, GpuError>)
    ensures
        is_report_of(OutputOption::MemUsageMb, text_view(r)),
{
    run_once(OutputOption::MemUsageMb, device)
}

/// Free memory as a percentage of total memory, from a fresh snapshot.
pub fn get_free_memory_percentage(device: &Device<'_>) -> (r: Result<String, GpuError>)
    ensures
        is_report_of(OutputOption::MemFreePercentage, text_view(r)),
{
    run_once(OutputOption::MemFreePercentage, device)
}

/// Free memory in mebibytes, from a fresh snapshot.
pub fn get_free_memory_mb(device: &Device<'_>) -> (r: Result<String, GpuError>)
    ensures
        is_report_of(OutputOption::MemFreeMb, text_view(r)),
{
    run_once(OutputOption::MemFreeMb, device)
}

/// Total memory in mebibytes, from a fresh snapshot.
pub fn get_total_memory_mb(device: &Device<'_>) -> (r: Result<String, GpuError>)
    ensures
        is_report_of(OutputOption::MemTotalMb, text_view(r)),
{
    run_once(OutputOption::MemTotalMb, device)
}

/// The current frequency of the graphics clock.
pub fn get_clock_speed(device: &Device<'_>) -> (r: Result<String, GpuError>)
    ensures
        is_report_of(OutputOption::ClockSpeed, text_view(r)),
{
    run_once(OutputOption::ClockSpeed, device)
}

/// The highest boost frequency of the graphics clock.
pub fn get_max_boost_clock_speed(device: &Device<'_>) -> (r: Result<String, GpuError>)
    ensures
        is_report_of(OutputOption::MaxBoostClockSpeed, text_view(r)),
{
    run_once(OutputOption::MaxBoostClockSpeed, device)
}

/// The temperature of the GPU die.
pub fn get_temperature(device: &Device<'_>) -> (r: Result<String, GpuError>)
    ensures
        is_report_of(OutputOption::Temperature, text_view(r)),
{
    run_once(OutputOption::Temperature, device)
}

/// The share of time in which the device was computing, from a fresh snapshot.
pub fn get_gpu_utilization(device: &Device<'_>) -> (r: Result<String, GpuError>)
    ensures
        is_report_of(OutputOption::GpuUtilization, text_view(r)),
{
    run_once(OutputOption::GpuUtilization, device)
}

/// The share of time in which device memory was read or written, from a fresh
/// snapshot.
pub fn get_gpu_memory_utilization(device: &Device<'_>) -> (r: Result<String, GpuError>)
    ensures
        is_report_of(OutputOption::GpuMemoryUtilization, text_view(r)),
{
    run_once(OutputOption::GpuMemoryUtilization, device)
}

} // verus!
