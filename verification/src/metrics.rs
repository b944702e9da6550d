//! Snapshots of what the device reports, their unit conversions, and the text of
//! each metric.
//!
//! All arithmetic is integer arithmetic that truncates: a percentage or a count
//! of mebibytes is never rounded up.

use vstd::prelude::*;
use vstd::string::*;
use crate::decimal::{decimal, to_decimal};
use crate::error::GpuError;

verus! {

/// Bytes in one mebibyte.
pub const BYTES_PER_MB: u64 = 1048576;

/// A point-in-time snapshot of device memory, in bytes.
#[derive(Debug, Clone, Copy, PartialEq, Eq, Structural)]
pub struct MemoryInfo {
    pub total: u64,
    pub used: u64,
    pub free: u64,
}

/// A point-in-time snapshot of how busy the device is, in percent.
#[derive(Debug, Clone, Copy, PartialEq, Eq, Structural)]
pub struct UtilizationInfo {
    pub gpu_percent: u32,
    pub memory_percent: u32,
}

/// `part` as a truncated percentage of `total`.
pub open spec fn percent_of(part: nat, total: nat) -> nat
    recommends
        total > 0,
{
    part * 100 / total
}

/// A byte count in whole mebibytes, truncated.
pub open spec fn mb_of(bytes: nat) -> nat {
    bytes / 1024 / 1024
}

/// The text of a percentage: the numeral, then `%`.
pub open spec fn percent_text(n: nat) -> Seq<char> {
    decimal(n).push('%')
}

/// The text of a size in mebibytes: the numeral, then ` MB`.
pub open spec fn mb_text(n: nat) -> Seq<char> {
    decimal(n) + seq![' ', 'M', 'B']
}

/// The text of a frequency: the numeral, then ` MHz`.
pub open spec fn mhz_text(n: nat) -> Seq<char> {
    decimal(n) + seq![' ', 'M', 'H', 'z']
}

/// The text of a temperature: the numeral, then ` C`.
pub open spec fn celsius_text(n: nat) -> Seq<char> {
    decimal(n) + seq![' ', 'C']
}

/// The text of a memory percentage, or the error where the snapshot has no
/// total to divide by.
pub open spec fn memory_percent_text(part: u64, total: u64) -> Result<Seq<char>, GpuError> {
    if total == 0 {
        Err(GpuError::NoTotalMemory)
    } else {
        Ok(percent_text(percent_of(part as nat, total as nat)))
    }
}

/// What a `Result` that carries a string says, with the string taken by its view.
pub open spec fn text_view(r: Result<String, GpuError>) -> Result<Seq<char>, GpuError> {
    match r {
        Ok(text) => Ok(text@),
        Err(e) => Err(e),
    }
}

/// `part * 100 / total`, truncated toward zero and computed without overflow.
pub fn percentage(part: u64, total: u64) -> (percent: u128)
    requires
        total > 0,
    ensures
        percent == percent_of(part as nat, total as nat),
        percent * total <= part * 100 < (percent + 1) * total,
{
    let scaled: u128 = (part as u128) * 100;
    let percent: u128 = scaled / (total as u128);
    proof {
        lemma_quotient_truncates(part as nat * 100, total as nat);
    }
    percent
}

/// `bytes / 1024 / 1024`, truncated toward zero.
pub fn megabytes(bytes: u64) -> (mb: u64)
    ensures
        mb == mb_of(bytes as nat),
        mb * BYTES_PER_MB <= bytes < (mb + 1) * BYTES_PER_MB,
{
    bytes / 1024 / 1024
}

/// An integer quotient is the largest whole number of divisors that fits: it is
/// never rounded up.
pub proof fn lemma_quotient_truncates(n: nat, d: nat)
    requires
        d > 0,
    ensures
        (n / d) * d <= n < (n / d + 1) * d,
{
    vstd::arithmetic::div_mod::lemma_fundamental_div_mod(n as int, d as int);
    vstd::arithmetic::div_mod::lemma_mod_bound(n as int, d as int);
    assert((n / d) * d == d * (n / d)) by (nonlinear_arith);
    assert((n / d + 1) * d == d * (n / d) + d) by (nonlinear_arith);
}

/// Renders a percentage as `<n>%`.
pub fn format_percent(n: u128) -> (text: String)
    ensures
        text@ == percent_text(n as nat),
{
    proof {
        reveal_strlit("%");
    }
    let text = to_decimal(n).concat("%");
    assert(text@ =~= percent_text(n as nat));
    text
}

/// Renders a size in mebibytes as `<n> MB`.
pub fn format_mb(n: u64) -> (text: String)
    ensures
        text@ == mb_text(n as nat),
{
    proof {
        reveal_strlit(" MB");
    }
    let text = to_decimal(n as u128).concat(" MB");
    assert(text@ =~= mb_text(n as nat));
    text
}

/// Renders a frequency in megahertz as `<n> MHz`.
pub fn format_mhz(n: u32) -> (text: String)
    ensures
        text@ == mhz_text(n as nat),
{
    proof {
        reveal_strlit(" MHz");
    }
    let text = to_decimal(n as u128).concat(" MHz");
    assert(text@ =~= mhz_text(n as nat));
    text
}

/// Renders a temperature in degrees Celsius as `<n> C`.
pub fn format_celsius(n: u32) -> (text: String)
    ensures
        text@ == celsius_text(n as nat),
{
    proof {
        reveal_strlit(" C");
    }
    let text = to_decimal(n as u128).concat(" C");
    assert(text@ =~= celsius_text(n as nat));
    text
}

impl MemoryInfo {
    /// Used memory as a percentage of the total: `used * 100 / total`.
    pub fn used_percentage_text(&self) -> (r: Result<String, GpuError>)
        ensures
            text_view(r) == memory_percent_text(self.used, self.total),
    {
        if self.total == 0 {
            Err(GpuError::NoTotalMemory)
        } else {
            Ok(format_percent(percentage(self.used, self.total)))
        }
    }

    /// Free memory as a percentage of the total: `free * 100 / total`.
    pub fn free_percentage_text(&self) -> (r: Result<String, GpuError>)
        ensures
            text_view(r) == memory_percent_text(self.free, self.total),
    {
        if self.total == 0 {
            Err(GpuError::NoTotalMemory)
        } else {
            Ok(format_percent(percentage(self.free, self.total)))
        }
    }

    /// Used memory in mebibytes.
    pub fn used_mb_text(&self) -> (text: String)
        ensures
            text@ == mb_text(mb_of(self.used as nat)),
    {
        format_mb(megabytes(self.used))
    }

    /// Free memory in mebibytes.
    pub fn free_mb_text(&self) -> (text: String)
        ensures
            text@ == mb_text(mb_of(self.free as nat)),
    {
        format_mb(megabytes(self.free))
    }

    /// Total memory in mebibytes.
    pub fn total_mb_text(&self) -> (text: String)
        ensures
            text@ == mb_text(mb_of(self.total as nat)),
    {
        format_mb(megabytes(self.total))
    }
}

impl UtilizationInfo {
    /// The share of time in which the device was computing.
    pub fn gpu_text(&self) -> (text: String)
        ensures
            text@ == percent_text(self.gpu_percent as nat),
    {
        format_percent(self.gpu_percent as u128)
    }

    /// The share of time in which device memory was read or written.
    pub fn memory_text(&self) -> (text: String)
        ensures
            text@ == percent_text(self.memory_percent as nat),
    {
        format_percent(self.memory_percent as u128)
    }
}

} // verus!
