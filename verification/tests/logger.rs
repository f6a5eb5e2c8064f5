use webxr_session::logger::{FpsReport, Logger, MemoryCounters};

#[test]
fn no_report_inside_the_interval() {
    let mut logger = Logger::new(0);
    assert_eq!(logger.track_frame(500), None);
    assert_eq!(logger.track_frame(1000), None);
    assert_eq!(logger.frame_count, 2);
    assert_eq!(logger.total_frames, 2);
    assert_eq!(logger.last_time, 0);
}

#[test]
fn sixty_fps_cadence_reports_sixty() {
    // Synthetic timestamps spaced 16.6 time units apart (stored at tenth-unit
    // precision): the 61st frame lands at 1012, past the 1000-unit window.
    let mut logger = Logger::new(0);
    let mut report: Option<FpsReport> = None;
    for k in 1u64..=61 {
        let now = 166 * k / 10;
        let r = logger.track_frame(now);
        if k < 61 {
            assert_eq!(r, None, "no report expected at frame {}", k);
        } else {
            report = r;
        }
    }
    let report = report.expect("the 61st frame crosses the report interval");
    // 61 frames over 1012 units: 60.276 per 1000 units, within 60 +/- 1.
    assert_eq!(report.fps_milli, 61_000_000 / 1012);
    assert!(report.fps_milli >= 59_000 && report.fps_milli <= 61_000);
    assert!(report.average_fps_milli >= 59_000 && report.average_fps_milli <= 61_000);
    // The rolling counter resets; the cumulative one does not.
    assert_eq!(logger.frame_count, 0);
    assert_eq!(logger.total_frames, 61);
    assert_eq!(logger.last_time, 1012);
}

#[test]
fn cumulative_average_spans_both_windows() {
    let mut logger = Logger::new(0);
    // First window: 2 frames, report at 1100.
    assert_eq!(logger.track_frame(600), None);
    let first = logger.track_frame(1100).expect("first window closed");
    assert_eq!(first.fps_milli, 2_000_000 / 1100);
    assert_eq!(first.average_fps_milli, 2_000_000 / 1100);
    // Second window: 1 frame, report at 2400; the average runs from 0.
    let second = logger.track_frame(2400).expect("second window closed");
    assert_eq!(second.fps_milli, 1_000_000 / 1300);
    assert_eq!(second.average_fps_milli, 3_000_000 / 2400);
    assert_eq!(logger.total_frames, 3);
}

#[test]
fn log_fps_reports_the_scaled_rates() {
    let mut logger = Logger::new(0);
    assert_eq!(logger.track_frame(10), None);
    assert_eq!(logger.track_frame(20), None);
    let report = logger.log_fps(500);
    assert_eq!(report.fps_milli, 2_000_000 / 500);
    assert_eq!(report.fps_milli, 4000);
    assert_eq!(report.average_fps_milli, 4000);
}

#[test]
fn memory_counters_convert_to_megabyte_hundredths() {
    let logger = Logger::new(0);
    let report = logger
        .log_memory_usage(Some(MemoryCounters {
            heap_size_limit: 3 * 1_048_576,
            total_heap_size: 5 * 1_048_576 + 524_288,
            used_heap_size: 0,
        }))
        .expect("counters were available");
    assert_eq!(report.heap_size_limit_mb_hundredths, 300);
    assert_eq!(report.total_heap_size_mb_hundredths, 550);
    assert_eq!(report.used_heap_size_mb_hundredths, 0);
}

#[test]
fn missing_memory_counters_are_tolerated() {
    let logger = Logger::new(0);
    assert_eq!(logger.log_memory_usage(None), None);
}
