use vstd::prelude::*;
use crate::error::JobError;

verus! {

/// Lowest audio bitrate that a throttled plan allots, in bits per second.
pub const AUDIO_FLOOR_BPS: u32 = 64_000;

/// Highest audio bitrate that a throttled plan allots, in bits per second.
pub const AUDIO_CEILING_BPS: u32 = 256_000;

/// How the bit budget of one job is split between the two streams.
#[derive(Clone, Copy, Debug, PartialEq, Eq, Structural)]
pub struct PlannedBitrate {
    pub video_bps: u32,
    pub audio_bps: u32,
}

/// The bit budget per second of running time: the target size in bits
/// (a megabyte being 1,000,000 bytes) over the duration, the duration
/// being scaled by the fixed factor 1.073741824.
///
/// The duration is given in microseconds, so both the scale of the duration
/// and the nine decimals of the factor appear as powers of ten.
pub open spec fn target_total_bps(size_mb: int, duration_micros: int) -> int
    recommends
        duration_micros > 0,
{
    (size_mb * 8_000_000 * 1_000_000_000 * 1_000_000) / (1_073_741_824 * duration_micros)
}

/// The audio share: the source's own rate while ten times that rate fits
/// in the budget, else a tenth of the budget held within the two bounds.
pub open spec fn audio_share(total: int, source_audio_bps: int) -> int {
    if 10 * source_audio_bps > total {
        if total / 10 < AUDIO_FLOOR_BPS {
            AUDIO_FLOOR_BPS as int
        } else if total / 10 > AUDIO_CEILING_BPS {
            AUDIO_CEILING_BPS as int
        } else {
            total / 10
        }
    } else {
        source_audio_bps
    }
}

/// The video share: what the audio share leaves of the budget, the budget
/// counted up to `u32::MAX` at most, and never below zero.
pub open spec fn video_share(total: int, audio: int) -> int {
    let capped = if total > u32::MAX { u32::MAX as int } else { total };
    if capped > audio {
        capped - audio
    } else {
        0
    }
}

/// What `plan` returns for each input.
pub open spec fn plan_spec(size_mb: u32, duration_micros: i64, source_audio_bps: u32) -> Result<
    PlannedBitrate,
    JobError,
> {
    if duration_micros <= 0 {
        Err(JobError::InvalidDuration)
    } else {
        let total = target_total_bps(size_mb as int, duration_micros as int);
        let audio = audio_share(total, source_audio_bps as int);
        Ok(
            PlannedBitrate {
                video_bps: video_share(total, audio) as u32,
                audio_bps: audio as u32,
            },
        )
    }
}

/// Splits the bit budget for a target size of `size_mb` megabytes over a
/// source that runs for `duration_micros` microseconds and whose audio
/// stream has `source_audio_bps` bits per second.
///
/// Fails on a duration that is not positive and on nothing else: a target
/// that cannot be reached gives a video rate of zero.
pub fn plan(size_mb: u32, duration_micros: i64, source_audio_bps: u32) -> (r: Result<
    PlannedBitrate,
    JobError,
>)
    ensures
        r == plan_spec(size_mb, duration_micros, source_audio_bps),
        r is Err <==> duration_micros <= 0,
        r is Ok ==> {
            let total = target_total_bps(size_mb as int, duration_micros as int);
            let p = r.unwrap();
            &&& p.audio_bps == source_audio_bps || AUDIO_FLOOR_BPS <= p.audio_bps
                <= AUDIO_CEILING_BPS
            &&& p.audio_bps == source_audio_bps <== 10 * source_audio_bps <= total
            &&& AUDIO_FLOOR_BPS <= p.audio_bps <= AUDIO_CEILING_BPS <== 10 * source_audio_bps
                > total
            &&& p.video_bps + p.audio_bps <= total || p.video_bps == 0
        },
{
    if duration_micros <= 0 {
        return Err(JobError::InvalidDuration);
    }
    let bits: u128 = (size_mb as u128) * 8_000_000u128;
    let numerator: u128 = bits * 1_000_000_000u128 * 1_000_000u128;
    let denominator: u128 = 1_073_741_824u128 * (duration_micros as u128);
    let total: u128 = numerator / denominator;
    assert(total as int == target_total_bps(size_mb as int, duration_micros as int));
    let audio: u32 = if 10 * (source_audio_bps as u128) > total {
        let tenth: u128 = total / 10;
        if tenth < AUDIO_FLOOR_BPS as u128 {
            AUDIO_FLOOR_BPS
        } else if tenth > AUDIO_CEILING_BPS as u128 {
            AUDIO_CEILING_BPS
        } else {
            tenth as u32
        }
    } else {
        source_audio_bps
    };
    let capped: u32 = if total > u32::MAX as u128 {
        u32::MAX
    } else {
        total as u32
    };
    let video: u32 = if capped > audio {
        capped - audio
    } else {
        0
    };
    Ok(PlannedBitrate { video_bps: video, audio_bps: audio })
}

/// Two plans made from the same inputs are the same plan: `plan` reads
/// nothing but its arguments.
pub proof fn plan_is_repeatable(
    size_mb: u32,
    duration_micros: i64,
    source_audio_bps: u32,
    first: Result<PlannedBitrate, JobError>,
    second: Result<PlannedBitrate, JobError>,
)
    requires
        first == plan_spec(size_mb, duration_micros, source_audio_bps),
        second == plan_spec(size_mb, duration_micros, source_audio_bps),
    ensures
        first == second,
{
}

/// For a positive duration the plan exists, its audio rate is the source's
/// own or lies within the two bounds, and it is the source's own only where
/// ten times the source's rate fits in the budget, or where that rate lies
/// within the bounds anyway.
pub proof fn plan_audio_within_bounds(size_mb: u32, duration_micros: i64, source_audio_bps: u32)
    requires
        duration_micros > 0,
    ensures
        plan_spec(size_mb, duration_micros, source_audio_bps) is Ok,
        ({
            let p = plan_spec(size_mb, duration_micros, source_audio_bps).unwrap();
            let total = target_total_bps(size_mb as int, duration_micros as int);
            &&& p.video_bps >= 0
            &&& p.audio_bps == source_audio_bps || AUDIO_FLOOR_BPS <= p.audio_bps
                <= AUDIO_CEILING_BPS
            &&& !(AUDIO_FLOOR_BPS <= p.audio_bps <= AUDIO_CEILING_BPS) ==> 10 * source_audio_bps
                <= total
        }),
{
    let total = target_total_bps(size_mb as int, duration_micros as int);
    assert(total >= 0) by (nonlinear_arith)
        requires
            total == (size_mb * 8_000_000 * 1_000_000_000 * 1_000_000) / (1_073_741_824
                * duration_micros),
            size_mb >= 0,
            duration_micros > 0,
    ;
}

} // verus!
