//! The metric selector and the command-line flag of each.

use vstd::prelude::*;
use vstd::string::*;
use crate::error::GpuError;

verus! {

/// The metric to report. A closed set: one flag, one query and one format each.
#[derive(Debug, Clone, Copy, PartialEq, Eq, Structural)]
pub enum OutputOption {
    MemFreePercentage,
    MemFreeMb,
    MemUsagePercentage,
    MemUsageMb,
    MemTotalMb,
    ClockSpeed,
    MaxBoostClockSpeed,
    Temperature,
    GpuUtilization,
    GpuMemoryUtilization,
}

impl OutputOption {
    /// The flag that selects this metric.
    pub open spec fn flag(self) -> Seq<char> {
        match self {
            OutputOption::MemFreePercentage => "--free-memory"@,
            OutputOption::MemFreeMb => "--free-memory-mb"@,
            OutputOption::MemUsagePercentage => "--used-memory"@,
            OutputOption::MemUsageMb => "--used-memory-mb"@,
            OutputOption::MemTotalMb => "--total-memory-mb"@,
            OutputOption::ClockSpeed => "--clock-speed"@,
            OutputOption::MaxBoostClockSpeed => "--max-boost-clock-speed"@,
            OutputOption::Temperature => "--temperature"@,
            OutputOption::GpuUtilization => "--gpu-utilization"@,
            OutputOption::GpuMemoryUtilization => "--gpu-memory-utilization"@,
        }
    }

    /// The metric reported when no flag is given.
    pub open spec fn fallback() -> OutputOption {
        OutputOption::MemFreePercentage
    }

    /// The flag that selects this metric, as text.
    pub fn flag_text(&self) -> (text: &'static str)
        ensures
            text@ == self.flag(),
    {
        match self {
            OutputOption::MemFreePercentage => "--free-memory",
            OutputOption::MemFreeMb => "--free-memory-mb",
            OutputOption::MemUsagePercentage => "--used-memory",
            OutputOption::MemUsageMb => "--used-memory-mb",
            OutputOption::MemTotalMb => "--total-memory-mb",
            OutputOption::ClockSpeed => "--clock-speed",
            OutputOption::MaxBoostClockSpeed => "--max-boost-clock-speed",
            OutputOption::Temperature => "--temperature",
            OutputOption::GpuUtilization => "--gpu-utilization",
            OutputOption::GpuMemoryUtilization => "--gpu-memory-utilization",
        }
    }
}

/// Whether some metric has this flag.
pub open spec fn is_flag(token: Seq<char>) -> bool {
    exists|option: OutputOption| token == #[trigger] option.flag()
}

/// What a token resolves to: the metric whose flag it is, or the error where it
/// is no flag.
pub open spec fn resolve_token(token: Seq<char>) -> Result<OutputOption, GpuError> {
    if is_flag(token) {
        Ok(choose|option: OutputOption| token == #[trigger] option.flag())
    } else {
        Err(GpuError::InvalidOption)
    }
}

/// What an argument list resolves to. Only the first token after the program's
/// name counts; without one the fallback metric is reported.
pub open spec fn resolve_args(args: Seq<Seq<char>>) -> Result<OutputOption, GpuError> {
    if args.len() > 1 {
        resolve_token(args[1])
    } else {
        Ok(OutputOption::fallback())
    }
}

/// No two metrics share a flag.
pub proof fn lemma_flag_injective(a: OutputOption, b: OutputOption)
    requires
        a.flag() == b.flag(),
    ensures
        a == b,
{
    reveal_strlit("--free-memory");
    reveal_strlit("--free-memory-mb");
    reveal_strlit("--used-memory");
    reveal_strlit("--used-memory-mb");
    reveal_strlit("--total-memory-mb");
    reveal_strlit("--clock-speed");
    reveal_strlit("--max-boost-clock-speed");
    reveal_strlit("--temperature");
    reveal_strlit("--gpu-utilization");
    reveal_strlit("--gpu-memory-utilization");
    assert("--free-memory"@.len() == 13 && "--free-memory"@[2] == 'f');
    assert("--free-memory-mb"@.len() == 16 && "--free-memory-mb"@[2] == 'f');
    assert("--used-memory"@.len() == 13 && "--used-memory"@[2] == 'u');
    assert("--used-memory-mb"@.len() == 16 && "--used-memory-mb"@[2] == 'u');
    assert("--total-memory-mb"@.len() == 17 && "--total-memory-mb"@[2] == 't');
    assert("--clock-speed"@.len() == 13 && "--clock-speed"@[2] == 'c');
    assert("--max-boost-clock-speed"@.len() == 23);
    assert("--temperature"@.len() == 13 && "--temperature"@[2] == 't');
    assert("--gpu-utilization"@.len() == 17 && "--gpu-utilization"@[2] == 'g');
    assert("--gpu-memory-utilization"@.len() == 24);
    assert(a.flag().len() == b.flag().len());
    assert(a.flag()[2] == b.flag()[2]);
}

/// Every metric's flag resolves to that metric and to no other.
pub proof fn lemma_flag_resolves(option: OutputOption)
    ensures
        is_flag(option.flag()),
        resolve_token(option.flag()) == Ok::<OutputOption, GpuError>(option),
{
    let found = choose|other: OutputOption| option.flag() == #[trigger] other.flag();
    lemma_flag_injective(option, found);
}

/// A token resolves to a metric exactly when it is that metric's flag.
pub proof fn lemma_resolve_token_exact(token: Seq<char>, option: OutputOption)
    ensures
        resolve_token(token) == Ok::<OutputOption, GpuError>(option) <==> token == option.flag(),
{
    if token == option.flag() {
        lemma_flag_resolves(option);
    }
}

/// Whether two texts hold the same characters.
fn same_text(a: &str, b: &str) -> (same: bool)
    ensures
        same == (a@ == b@),
{
    let left = String::from_str(a);
    let right = String::from_str(b);
    left == right
}

/// Resolves one token to the metric whose flag it is.
pub fn parse_flag(token: &str) -> (r: Result<OutputOption, GpuError>)
    ensures
        r == resolve_token(token@),
        r is Err <==> !is_flag(token@),
{
    let r = if same_text(token, "--free-memory") {
        Ok(OutputOption::MemFreePercentage)
    } else if same_text(token, "--free-memory-mb") {
        Ok(OutputOption::MemFreeMb)
    } else if same_text(token, "--used-memory") {
        Ok(OutputOption::MemUsagePercentage)
    } else if same_text(token, "--used-memory-mb") {
        Ok(OutputOption::MemUsageMb)
    } else if same_text(token, "--total-memory-mb") {
        Ok(OutputOption::MemTotalMb)
    } else if same_text(token, "--clock-speed") {
        Ok(OutputOption::ClockSpeed)
    } else if same_text(token, "--max-boost-clock-speed") {
        Ok(OutputOption::MaxBoostClockSpeed)
    } else if same_text(token, "--temperature") {
        Ok(OutputOption::Temperature)
    } else if same_text(token, "--gpu-utilization") {
        Ok(OutputOption::GpuUtilization)
    } else if same_text(token, "--gpu-memory-utilization") {
        Ok(OutputOption::GpuMemoryUtilization)
    } else {
        Err(GpuError::InvalidOption)
    };
    proof {
        match r {
            Ok(option) => {
                assert(token@ == option.flag());
                lemma_flag_resolves(option);
            },
            Err(_) => {
                assert forall|option: OutputOption| token@ != #[trigger] option.flag() by {}
            },
        }
    }
    r
}

/// Resolves the argument list of the process: the program's name, then at most
/// one token that counts. Further tokens are ignored.
pub fn resolve(args: &Vec<String>) -> (r: Result<OutputOption, GpuError>)
    ensures
        r == resolve_args(Seq::new(args@.len(), |i: int| args@[i]@)),
        args@.len() <= 1 ==> r == Ok::<OutputOption, GpuError>(OutputOption::fallback()),
        args@.len() > 1 ==> r == resolve_token(args@[1]@),
{
    if args.len() > 1 {
        parse_flag(args[1].as_str())
    } else {
        Ok(OutputOption::MemFreePercentage)
    }
}

} // verus!
