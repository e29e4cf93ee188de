use stream_fetch::counter::ByteCounter;
use stream_fetch::progress::{ProgressReporter, Report, ReporterState, POLL_INTERVAL_SECS};

fn percent(report: Report) -> f32 {
    (report.fetched() as f32 / report.expected() as f32) * 100f32
}

#[test]
fn polling_interval_is_one_second() {
    assert_eq!(POLL_INTERVAL_SECS, 1);
}

#[test]
fn a_new_reporter_is_polling() {
    let reporter = ProgressReporter::new(500);
    assert_eq!(reporter.expected(), 500);
    assert_eq!(reporter.state(), ReporterState::Polling);
}

#[test]
fn reading_below_expected_is_a_progress_line() {
    let mut reporter = ProgressReporter::new(1000);
    let report = reporter.observe(250);
    assert_eq!(report, Report::Progress { fetched: 250, expected: 1000 });
    assert!(!report.is_final());
    assert_eq!(report.fetched(), 250);
    assert_eq!(report.expected(), 1000);
    assert_eq!(reporter.state(), ReporterState::Polling);
    assert_eq!(percent(report), 25.0);
}

#[test]
fn reading_at_expected_is_the_summary_line() {
    let mut reporter = ProgressReporter::new(1000);
    let report = reporter.observe(1000);
    assert_eq!(report, Report::Final { fetched: 1000, expected: 1000 });
    assert!(report.is_final());
    assert_eq!(reporter.state(), ReporterState::Done);
    assert_eq!(percent(report), 100.0);
}

#[test]
fn reading_past_expected_is_the_summary_line() {
    let mut reporter = ProgressReporter::new(1000);
    let report = reporter.observe(1001);
    assert_eq!(report, Report::Final { fetched: 1001, expected: 1000 });
    assert_eq!(reporter.state(), ReporterState::Done);
}

#[test]
fn one_byte_short_keeps_polling() {
    let mut reporter = ProgressReporter::new(1000);
    let report = reporter.observe(999);
    assert_eq!(report, Report::Progress { fetched: 999, expected: 1000 });
    assert_eq!(reporter.state(), ReporterState::Polling);
}

#[test]
fn nothing_expected_finishes_on_the_first_reading() {
    let mut reporter = ProgressReporter::new(0);
    let report = reporter.observe(0);
    assert_eq!(report, Report::Final { fetched: 0, expected: 0 });
    assert_eq!(reporter.state(), ReporterState::Done);
}

#[test]
fn fetch_finished_before_the_first_reading() {
    let counter = ByteCounter::new();
    counter.add(64);
    let mut reporter = ProgressReporter::new(64);
    let report = reporter.poll(&counter.reader());
    assert_eq!(report, Report::Final { fetched: 64, expected: 64 });
    assert_eq!(reporter.state(), ReporterState::Done);
}

#[test]
fn poll_reads_the_shared_count() {
    let counter = ByteCounter::new();
    let reader = counter.reader();
    let mut reporter = ProgressReporter::new(100);
    assert_eq!(reporter.poll(&reader), Report::Progress { fetched: 0, expected: 100 });
    counter.add(30);
    assert_eq!(reporter.poll(&reader), Report::Progress { fetched: 30, expected: 100 });
    assert_eq!(reporter.poll(&reader), Report::Progress { fetched: 30, expected: 100 });
    counter.add(70);
    assert_eq!(reporter.poll(&reader), Report::Final { fetched: 100, expected: 100 });
    assert_eq!(reporter.state(), ReporterState::Done);
}

#[test]
fn reporter_driven_from_zero_to_expected_stops_with_the_full_count() {
    let readings = [0usize, 0, 10, 10, 55, 99, 100, 100, 100];
    let mut reporter = ProgressReporter::new(100);
    let mut lines = Vec::new();
    for reading in readings {
        if reporter.state() == ReporterState::Done {
            break;
        }
        lines.push(reporter.observe(reading));
    }
    assert_eq!(reporter.state(), ReporterState::Done);
    assert_eq!(lines.len(), 7);
    assert_eq!(lines[6], Report::Final { fetched: 100, expected: 100 });
    for (line, reading) in lines[..6].iter().zip(readings) {
        assert_eq!(*line, Report::Progress { fetched: reading, expected: 100 });
    }
}

#[test]
fn bursts_between_readings_are_not_reported() {
    let counter = ByteCounter::new();
    let reader = counter.reader();
    let mut reporter = ProgressReporter::new(300);
    counter.add(100);
    counter.add(100);
    assert_eq!(reporter.poll(&reader), Report::Progress { fetched: 200, expected: 300 });
    counter.add(50);
    counter.add(50);
    assert_eq!(reporter.poll(&reader), Report::Final { fetched: 300, expected: 300 });
}
