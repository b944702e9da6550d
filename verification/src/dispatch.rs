//! The dispatch table: which query answers a metric, and what text a reading
//! gives for it.

use vstd::prelude::*;
use crate::error::GpuError;
use crate::metrics::{
    celsius_text, format_celsius, format_mhz, mb_of, mb_text, memory_percent_text, mhz_text,
    percent_text, text_view, MemoryInfo, UtilizationInfo,
};
use crate::selector::OutputOption;

verus! {

/// The queries that the device is asked.
#[derive(Debug, Clone, Copy, PartialEq, Eq, Structural)]
pub enum Query {
    /// The memory snapshot.
    Memory,
    /// The frequency the graphics clock runs at now.
    CurrentClock,
    /// The highest boost frequency of the graphics clock.
    MaxBoostClock,
    /// The temperature of the GPU die.
    Temperature,
    /// The utilization snapshot.
    Utilization,
}

/// What a query answered.
#[derive(Debug, Clone, Copy, PartialEq, Eq, Structural)]
pub enum Sample {
    /// A memory snapshot, in bytes.
    Memory(MemoryInfo),
    /// A clock frequency, in MHz.
    Clock(u32),
    /// A temperature, in degrees Celsius.
    Temperature(u32),
    /// A utilization snapshot, in percent.
    Utilization(UtilizationInfo),
}

impl Query {
    /// The error that stands for a failure of this query.
    pub open spec fn failure(self) -> GpuError {
        match self {
            Query::Memory => GpuError::MemoryInfo,
            Query::CurrentClock | Query::MaxBoostClock => GpuError::ClockInfo,
            Query::Temperature => GpuError::TemperatureInfo,
            Query::Utilization => GpuError::UtilizationInfo,
        }
    }

    /// The error that stands for a failure of this query.
    pub fn failure_of(&self) -> (e: GpuError)
        ensures
            e == self.failure(),
    {
        match self {
            Query::Memory => GpuError::MemoryInfo,
            Query::CurrentClock => GpuError::ClockInfo,
            Query::MaxBoostClock => GpuError::ClockInfo,
            Query::Temperature => GpuError::TemperatureInfo,
            Query::Utilization => GpuError::UtilizationInfo,
        }
    }
}

impl Sample {
    /// Whether this is the kind of reading that `query` gives.
    pub open spec fn answers(self, query: Query) -> bool {
        match self {
            Sample::Memory(_) => query == Query::Memory,
            Sample::Clock(_) => query == Query::CurrentClock || query == Query::MaxBoostClock,
            Sample::Temperature(_) => query == Query::Temperature,
            Sample::Utilization(_) => query == Query::Utilization,
        }
    }
}

impl OutputOption {
    /// The one query that answers this metric.
    pub open spec fn query(self) -> Query {
        match self {
            OutputOption::MemFreePercentage
            | OutputOption::MemFreeMb
            | OutputOption::MemUsagePercentage
            | OutputOption::MemUsageMb
            | OutputOption::MemTotalMb => Query::Memory,
            OutputOption::ClockSpeed => Query::CurrentClock,
            OutputOption::MaxBoostClockSpeed => Query::MaxBoostClock,
            OutputOption::Temperature => Query::Temperature,
            OutputOption::GpuUtilization | OutputOption::GpuMemoryUtilization => Query::Utilization,
        }
    }

    /// The one query that answers this metric.
    pub fn query_of(&self) -> (query: Query)
        ensures
            query == self.query(),
    {
        match self {
            OutputOption::MemFreePercentage => Query::Memory,
            OutputOption::MemFreeMb => Query::Memory,
            OutputOption::MemUsagePercentage => Query::Memory,
            OutputOption::MemUsageMb => Query::Memory,
            OutputOption::MemTotalMb => Query::Memory,
            OutputOption::ClockSpeed => Query::CurrentClock,
            OutputOption::MaxBoostClockSpeed => Query::MaxBoostClock,
            OutputOption::Temperature => Query::Temperature,
            OutputOption::GpuUtilization => Query::Utilization,
            OutputOption::GpuMemoryUtilization => Query::Utilization,
        }
    }
}

/// The line that reports `sample` as the metric `option`. A sample of another
/// kind than the metric's query gives holds no reading of the metric, and counts
/// as a failure of that query.
pub open spec fn report_text(option: OutputOption, sample: Sample) -> Result<Seq<char>, GpuError> {
    match (option, sample) {
        (OutputOption::MemFreePercentage, Sample::Memory(m)) => memory_percent_text(m.free, m.total),
        (OutputOption::MemFreeMb, Sample::Memory(m)) => Ok(mb_text(mb_of(m.free as nat))),
        (OutputOption::MemUsagePercentage, Sample::Memory(m)) => memory_percent_text(
            m.used,
            m.total,
        ),
        (OutputOption::MemUsageMb, Sample::Memory(m)) => Ok(mb_text(mb_of(m.used as nat))),
        (OutputOption::MemTotalMb, Sample::Memory(m)) => Ok(mb_text(mb_of(m.total as nat))),
        (OutputOption::ClockSpeed, Sample::Clock(mhz)) => Ok(mhz_text(mhz as nat)),
        (OutputOption::MaxBoostClockSpeed, Sample::Clock(mhz)) => Ok(mhz_text(mhz as nat)),
        (OutputOption::Temperature, Sample::Temperature(degrees)) => Ok(
            celsius_text(degrees as nat),
        ),
        (OutputOption::GpuUtilization, Sample::Utilization(u)) => Ok(
            percent_text(u.gpu_percent as nat),
        ),
        (OutputOption::GpuMemoryUtilization, Sample::Utilization(u)) => Ok(
            percent_text(u.memory_percent as nat),
        ),
        _ => Err(option.query().failure()),
    }
}

/// Renders `sample` as the metric `option`: the conversion and the format of
/// that metric, applied to the reading.
pub fn render(option: OutputOption, sample: &Sample) -> (r: Result<String, GpuError>)
    ensures
        text_view(r) == report_text(option, *sample),
{
    match sample {
        Sample::Memory(m) => match option {
            OutputOption::MemFreePercentage => m.free_percentage_text(),
            OutputOption::MemFreeMb => Ok(m.free_mb_text()),
            OutputOption::MemUsagePercentage => m.used_percentage_text(),
            OutputOption::MemUsageMb => Ok(m.used_mb_text()),
            OutputOption::MemTotalMb => Ok(m.total_mb_text()),
            _ => Err(option.query_of().failure_of()),
        },
        Sample::Clock(mhz) => match option {
            OutputOption::ClockSpeed => Ok(format_mhz(*mhz)),
            OutputOption::MaxBoostClockSpeed => Ok(format_mhz(*mhz)),
            _ => Err(option.query_of().failure_of()),
        },
        Sample::Temperature(degrees) => match option {
            OutputOption::Temperature => Ok(format_celsius(*degrees)),
            _ => Err(option.query_of().failure_of()),
        },
        Sample::Utilization(u) => match option {
            OutputOption::GpuUtilization => Ok(u.gpu_text()),
            OutputOption::GpuMemoryUtilization => Ok(u.memory_text()),
            _ => Err(option.query_of().failure_of()),
        },
    }
}

/// A sample of the kind that the metric's query gives always yields a line,
/// unless a percentage of memory is asked of a snapshot without memory.
pub proof fn lemma_report_succeeds(option: OutputOption, sample: Sample)
    requires
        sample.answers(option.query()),
    ensures
        report_text(option, sample) is Err <==> (sample matches Sample::Memory(m) && m.total == 0
            && (option == OutputOption::MemFreePercentage || option
            == OutputOption::MemUsagePercentage)),
        report_text(option, sample) is Err ==> report_text(option, sample)
            == Err::<Seq<char>, GpuError>(GpuError::NoTotalMemory),
{
}

} // verus!
