//! Telemetry logger: a rolling and a cumulative frame counter over a
//! monotonic clock. When more than the report interval has elapsed since the
//! last report, it computes the instantaneous and the cumulative average
//! frame rate and resets the rolling counter. Observability only: it holds
//! no rendering state and decides no control flow.

use vstd::prelude::*;

verus! {

/// Elapsed time (in the clock's units) after which a report is due.
pub const REPORT_INTERVAL: u64 = 1000;

/// Rates are reported scaled by this factor: a frame rate is frames divided
/// by elapsed time times 1000 (frames per 1000 time units), and the reported
/// figure carries three more decimal digits, so the scale is 1000 * 1000.
pub const RATE_SCALE: u64 = 1_000_000;

/// Largest frame count whose scaled rate fits the arithmetic.
pub const MAX_COUNTED_FRAMES: u64 = u64::MAX / RATE_SCALE;

/// Bytes per megabyte.
pub const BYTES_PER_MB: u64 = 1_048_576;

/// Largest byte count whose megabyte conversion fits the arithmetic.
pub const MAX_MEMORY_BYTES: u64 = u64::MAX / 100;

/// A frame rate in thousandths of frames per 1000 time units: a report of
/// 60_276 means 60.276.
pub open spec fn spec_rate_milli(frames: int, elapsed: int) -> int {
    frames * (RATE_SCALE as int) / elapsed
}

/// A byte count in hundredths of a megabyte: 3_145_728 bytes report as 300.
pub open spec fn spec_mb_hundredths(bytes: int) -> int {
    bytes * 100 / (BYTES_PER_MB as int)
}

/// One frame-rate report.
#[derive(Clone, Copy, Debug, PartialEq, Eq, Structural)]
pub struct FpsReport {
    /// Rolling rate since the previous report, scaled by 1000.
    pub fps_milli: u64,
    /// Cumulative average rate since the session start, scaled by 1000.
    pub average_fps_milli: u64,
}

/// Platform memory counters, in bytes, where the platform exposes them.
#[derive(Clone, Copy, Debug, PartialEq, Eq, Structural)]
pub struct MemoryCounters {
    pub heap_size_limit: u64,
    pub total_heap_size: u64,
    pub used_heap_size: u64,
}

/// The same counters converted to hundredths of a megabyte.
#[derive(Clone, Copy, Debug, PartialEq, Eq, Structural)]
pub struct MemoryReport {
    pub heap_size_limit_mb_hundredths: u64,
    pub total_heap_size_mb_hundredths: u64,
    pub used_heap_size_mb_hundredths: u64,
}

/// Telemetry state, updated once per tick; lives as long as the session.
#[derive(Clone, Copy, Debug, PartialEq, Eq, Structural)]
pub struct Logger {
    /// Timestamp of the last report (initially the session start).
    pub last_time: u64,
    /// Timestamp of the session start.
    pub first_time: u64,
    /// Frames counted since the last report.
    pub frame_count: u64,
    /// Frames counted since the session start.
    pub total_frames: u64,
}

impl Logger {
    /// The counters never precede the session start, and the rolling counter
    /// never exceeds the cumulative one.
    pub open spec fn wf(self) -> bool {
        &&& self.first_time <= self.last_time
        &&& self.frame_count <= self.total_frames
    }

    /// Start counting at the current clock reading.
    pub fn new(now: u64) -> (logger: Logger)
        ensures
            logger == (Logger { last_time: now, first_time: now, frame_count: 0, total_frames: 0 }),
            logger.wf(),
    {
        Logger { last_time: now, first_time: now, frame_count: 0, total_frames: 0 }
    }

    /// Count one frame at clock reading `now`. Both counters advance; when
    /// more than the report interval has elapsed since the last report, the
    /// rates are reported, the rolling counter is reset and the report time
    /// restarts at `now`.
    pub fn track_frame(&mut self, now: u64) -> (report: Option<FpsReport>)
        requires
            old(self).wf(),
            now >= old(self).last_time,
            old(self).total_frames < MAX_COUNTED_FRAMES,
        ensures
            final(self).wf(),
            final(self).first_time == old(self).first_time,
            final(self).total_frames == old(self).total_frames + 1,
            now - old(self).last_time > REPORT_INTERVAL ==> {
                &&& report == Some(
                    FpsReport {
                        fps_milli: spec_rate_milli(
                            old(self).frame_count + 1,
                            now - old(self).last_time,
                        ) as u64,
                        average_fps_milli: spec_rate_milli(
                            old(self).total_frames + 1,
                            now - old(self).first_time,
                        ) as u64,
                    },
                )
                &&& final(self).frame_count == 0
                &&& final(self).last_time == now
            },
            now - old(self).last_time <= REPORT_INTERVAL ==> {
                &&& report is None
                &&& final(self).frame_count == old(self).frame_count + 1
                &&& final(self).last_time == old(self).last_time
            },
    {
        self.frame_count = self.frame_count + 1;
        self.total_frames = self.total_frames + 1;
        let elapsed = now - self.last_time;
        if elapsed > REPORT_INTERVAL {
            let report = self.log_fps(now);
            self.last_time = now;
            self.frame_count = 0;
            Some(report)
        } else {
            None
        }
    }

    /// The rates at clock reading `now`: the rolling count over the time
    /// since the last report, and the cumulative count over the session's
    /// whole lifetime, each scaled by 1000.
    pub fn log_fps(&self, now: u64) -> (report: FpsReport)
        requires
            self.wf(),
            now > self.last_time,
            self.total_frames <= MAX_COUNTED_FRAMES,
        ensures
            report.fps_milli == spec_rate_milli(self.frame_count as int, now - self.last_time),
            report.average_fps_milli == spec_rate_milli(
                self.total_frames as int,
                now - self.first_time,
            ),
    {
        let fps_milli = self.frame_count * RATE_SCALE / (now - self.last_time);
        let average_fps_milli = self.total_frames * RATE_SCALE / (now - self.first_time);
        FpsReport { fps_milli, average_fps_milli }
    }

    /// Convert the platform's memory counters, when it exposed any, to
    /// hundredths of a megabyte. A platform without the counters is
    /// silently tolerated; nothing else observes the outcome.
    pub fn log_memory_usage(&self, counters: Option<MemoryCounters>) -> (report: Option<
        MemoryReport,
    >)
        requires
            counters matches Some(c) ==> c.heap_size_limit <= MAX_MEMORY_BYTES
                && c.total_heap_size <= MAX_MEMORY_BYTES && c.used_heap_size <= MAX_MEMORY_BYTES,
        ensures
            report is Some <==> counters is Some,
            counters matches Some(c) ==> report == Some(MemoryReport {
                heap_size_limit_mb_hundredths: spec_mb_hundredths(c.heap_size_limit as int) as u64,
                total_heap_size_mb_hundredths: spec_mb_hundredths(c.total_heap_size as int) as u64,
                used_heap_size_mb_hundredths: spec_mb_hundredths(c.used_heap_size as int) as u64,
            }),
    {
        match counters {
            None => None,
            Some(c) => Some(
                MemoryReport {
                    heap_size_limit_mb_hundredths: c.heap_size_limit * 100 / BYTES_PER_MB,
                    total_heap_size_mb_hundredths: c.total_heap_size * 100 / BYTES_PER_MB,
                    used_heap_size_mb_hundredths: c.used_heap_size * 100 / BYTES_PER_MB,
                },
            ),
        }
    }
}

} // verus!
