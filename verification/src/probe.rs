//! The duration oracle's verdicts: what a run of the probing tool means, and
//! which duration a video is given when the probe fails.

use vstd::prelude::*;
use vstd::string::*;

verus! {

/// The duration, in seconds, that stands in for one that could not be probed.
pub const FALLBACK_DURATION_SECONDS: u64 = 15;

/// Why a probe gave no duration.
#[derive(Debug, Clone, Copy, PartialEq, Eq, Structural)]
pub enum ProbeFailure {
    /// The probing tool could not be run at all.
    NotRun,
    /// The probing tool ran and reported failure.
    ToolFailed,
    /// The probing tool reported success, but printed no number.
    Unparsable,
}

/// A failed probe: the file, the kind of failure, and what the tool or the
/// system said of it.
#[derive(Debug)]
pub struct ProbeError {
    pub path: String,
    pub failure: ProbeFailure,
    pub diagnostic: String,
}

impl ProbeError {
    /// The words that open the message of a failure of the given kind.
    pub open spec fn opening(failure: ProbeFailure) -> Seq<char> {
        match failure {
            ProbeFailure::NotRun => "could not run the probe for file "@,
            ProbeFailure::ToolFailed => "probe failed for file "@,
            ProbeFailure::Unparsable => "failed to parse duration for file "@,
        }
    }

    /// The text of [`ProbeError::message`].
    pub open spec fn message_text(&self) -> Seq<char> {
        Self::opening(self.failure) + self.path@ + ": "@ + self.diagnostic@
    }

    /// One line that names the file and the cause, for a warning.
    pub fn message(&self) -> (text: String)
        ensures
            text@ == self.message_text(),
    {
        let mut text = match self.failure {
            ProbeFailure::NotRun => String::from_str("could not run the probe for file "),
            ProbeFailure::ToolFailed => String::from_str("probe failed for file "),
            ProbeFailure::Unparsable => String::from_str("failed to parse duration for file "),
        };
        text.append(self.path.as_str());
        text.append(": ");
        text.append(self.diagnostic.as_str());
        text
    }
}

/// What one run of the probing tool means. The tool's exit status decides
/// first: after a failure the diagnostics it wrote are the cause. After a
/// success the number it printed is the duration, and where it printed none
/// its output is the cause.
pub open spec fn probe_verdict(
    path: Seq<char>,
    succeeded: bool,
    seconds: Option<u64>,
    output: Seq<char>,
    diagnostics: Seq<char>,
    verdict: Result<u64, ProbeError>,
) -> bool {
    match verdict {
        Ok(duration) => succeeded && seconds == Some(duration),
        Err(error) => {
            &&& error.path@ == path
            &&& !succeeded ==> error.failure == ProbeFailure::ToolFailed && error.diagnostic@
                == diagnostics
            &&& succeeded ==> seconds is None && error.failure == ProbeFailure::Unparsable
                && error.diagnostic@ == output
        },
    }
}

/// Judges one run of the probing tool on `path`: `succeeded` is its exit
/// status, `output` what it printed, `seconds` the whole seconds of the
/// number read from that, if one could be read, and `diagnostics` what it
/// wrote of its failure.
pub fn judge_probe(
    path: &str,
    succeeded: bool,
    seconds: Option<u64>,
    output: &str,
    diagnostics: &str,
) -> (verdict: Result<u64, ProbeError>)
    ensures
        probe_verdict(path@, succeeded, seconds, output@, diagnostics@, verdict),
        verdict is Ok <==> succeeded && seconds is Some,
{
    if !succeeded {
        return Err(
            ProbeError {
                path: String::from_str(path),
                failure: ProbeFailure::ToolFailed,
                diagnostic: String::from_str(diagnostics),
            },
        );
    }
    match seconds {
        Some(duration) => Ok(duration),
        None => Err(
            ProbeError {
                path: String::from_str(path),
                failure: ProbeFailure::Unparsable,
                diagnostic: String::from_str(output),
            },
        ),
    }
}

/// The duration a video is given: the probed one, or the fallback where the
/// probe failed, whatever the failure.
pub open spec fn resolved_duration(probe: Result<u64, ProbeError>) -> u64 {
    match probe {
        Ok(duration) => duration,
        Err(_) => FALLBACK_DURATION_SECONDS,
    }
}

/// Resolves the duration of a video from the outcome of its probe.
pub fn resolve_duration(probe: &Result<u64, ProbeError>) -> (duration: u64)
    ensures
        duration == resolved_duration(*probe),
{
    match probe {
        Ok(duration) => *duration,
        Err(_) => FALLBACK_DURATION_SECONDS,
    }
}

} // verus!
