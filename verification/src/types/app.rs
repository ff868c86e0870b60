use vstd::prelude::*;
use crate::error::JobError;
use crate::types::{Encoder, Preset, Resolution};

verus! {

/// The options that one job is started with.
#[derive(Clone, Copy, Debug, PartialEq, Eq, Structural)]
pub struct AppConfig {
    /// Size that the output should not exceed, in megabytes.
    pub target_size_mb: u32,
    /// Frames per second of the output; the source's own rate where absent.
    pub frame_rate: Option<u32>,
    pub encoder: Encoder,
    pub dark_mode_enabled: bool,
    /// Height of the output; the source's own size where absent.
    pub resolution: Option<Resolution>,
    pub preset: Preset,
}

/// Target output size, in megabytes, used when none is configured.
pub fn default_target_size() -> (size_mb: u32)
    ensures
        size_mb == 10,
{
    10
}

impl AppConfig {
    /// The options of a fresh installation.
    pub open spec fn initial() -> AppConfig {
        AppConfig {
            target_size_mb: 10,
            frame_rate: None,
            encoder: Encoder::CpuX264,
            dark_mode_enabled: false,
            resolution: None,
            preset: Preset::Unspecified,
        }
    }
}

impl Default for AppConfig {
    fn default() -> (config: Self)
        ensures
            config == AppConfig::initial(),
    {
        AppConfig {
            target_size_mb: default_target_size(),
            frame_rate: None,
            encoder: Encoder::CpuX264,
            dark_mode_enabled: false,
            resolution: None,
            preset: Preset::Unspecified,
        }
    }
}

/// Where a queued file stands. A file only ever moves forward:
/// from `Waiting` to `Processing` to `Done`.
#[derive(Clone, Copy, Debug, PartialEq, Eq, Structural)]
pub enum FileStatus {
    Waiting,
    Processing,
    Done,
}

/// One queued file.
#[derive(Debug)]
pub struct QueueItem {
    pub path: String,
    pub status: FileStatus,
    /// Size of the source file.
    pub size_bytes: u64,
    /// Size of the encoded file, once a job has produced and measured one.
    pub output_size_bytes: Option<u64>,
}

/// A queued file as contracts speak of it.
pub struct QueueItemView {
    pub path: Seq<char>,
    pub status: FileStatus,
    pub size_bytes: u64,
    pub output_size_bytes: Option<u64>,
}

impl View for QueueItem {
    type V = QueueItemView;

    open spec fn view(&self) -> QueueItemView {
        QueueItemView {
            path: self.path@,
            status: self.status,
            size_bytes: self.size_bytes,
            output_size_bytes: self.output_size_bytes,
        }
    }
}

impl Clone for QueueItem {
    fn clone(&self) -> (copy: Self)
        ensures
            copy@ == self@,
    {
        QueueItem {
            path: self.path.clone(),
            status: self.status,
            size_bytes: self.size_bytes,
            output_size_bytes: self.output_size_bytes,
        }
    }
}

impl QueueItem {
    /// A file as it enters the queue: waiting, with no output yet.
    pub fn new(path: String, size_bytes: u64) -> (item: Self)
        ensures
            item@ == (QueueItemView {
                path: path@,
                status: FileStatus::Waiting,
                size_bytes,
                output_size_bytes: None,
            }),
    {
        QueueItem { path, status: FileStatus::Waiting, size_bytes, output_size_bytes: None }
    }

    /// The size of the encoded file, or the reason why there is none:
    /// no job has measured an output for this file.
    pub fn output_size(&self) -> (r: Result<u64, JobError>)
        ensures
            r == match self.output_size_bytes {
                Some(size) => Ok::<u64, JobError>(size),
                None => Err::<u64, JobError>(JobError::OutputSizeUnavailable),
            },
    {
        match self.output_size_bytes {
            Some(size) => Ok(size),
            None => Err(JobError::OutputSizeUnavailable),
        }
    }
}

} // verus!
