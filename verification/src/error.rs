use vstd::prelude::*;

verus! {

/// Why a job, or one step of it, did not produce its result.
#[derive(Clone, Copy, Debug, PartialEq, Eq, Structural)]
pub enum JobError {
    /// The probe tool could not be started.
    ProbeUnavailable,
    /// The probe tool ran and exited with a failure status.
    ProbeFailed,
    /// The probe tool's output is not the two expected numeric lines.
    ProbeParseError,
    /// The source's duration is zero or negative.
    InvalidDuration,
    /// The encoder could not be started.
    SpawnFailed,
    /// The encoder left no output file to measure.
    OutputSizeUnavailable,
}

impl JobError {
    pub open spec fn message_spec(self) -> Seq<char> {
        match self {
            JobError::ProbeUnavailable => "Failed to calculate bitrate: the probe tool could not be started."@,
            JobError::ProbeFailed => "Failed to calculate bitrate: the probe tool reported a failure."@,
            JobError::ProbeParseError => "Failed to calculate bitrate: the probe output is not numeric."@,
            JobError::InvalidDuration => "Failed to calculate bitrate: the duration is not positive."@,
            JobError::SpawnFailed => "Failed to run the encoder."@,
            JobError::OutputSizeUnavailable => "The encoder left no output file."@,
        }
    }

    /// The line that explains this error in the diagnostic log.
    pub fn message(&self) -> (text: &'static str)
        ensures
            text@ == self.message_spec(),
    {
        match self {
            JobError::ProbeUnavailable => "Failed to calculate bitrate: the probe tool could not be started.",
            JobError::ProbeFailed => "Failed to calculate bitrate: the probe tool reported a failure.",
            JobError::ProbeParseError => "Failed to calculate bitrate: the probe output is not numeric.",
            JobError::InvalidDuration => "Failed to calculate bitrate: the duration is not positive.",
            JobError::SpawnFailed => "Failed to run the encoder.",
            JobError::OutputSizeUnavailable => "The encoder left no output file.",
        }
    }
}

} // verus!
