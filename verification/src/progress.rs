//! The progress reporter: a poller that turns readings of the shared count
//! into lines to print, and stops at the first reading that reaches the
//! expected size.
//!
//! The reporter neither prints nor waits. Its caller prints each line it is
//! given and, after a progress line, waits one interval before asking
//! again.

use vstd::prelude::*;

use crate::counter::CountReader;

verus! {

/// Seconds to wait after a progress line before the count is read again.
pub const POLL_INTERVAL_SECS: u64 = 1;

/// Where a reporter is in its life.
#[derive(Debug, Clone, Copy, PartialEq, Eq, Structural)]
pub enum ReporterState {
    /// Still reading the count; every reading so far was short of the
    /// expected size.
    Polling,
    /// The summary line has been given out. Nothing follows.
    Done,
}

/// One line of output, as the numbers it shows.
#[derive(Debug, Clone, Copy, PartialEq, Eq, Structural)]
pub enum Report {
    /// Fewer bytes than expected have arrived: print, wait, read again.
    Progress { fetched: usize, expected: usize },
    /// The expected size has been reached: print the summary and stop.
    Final { fetched: usize, expected: usize },
}

impl Report {
    /// The reading this line shows.
    pub open spec fn spec_fetched(self) -> usize {
        match self {
            Report::Progress { fetched, .. } => fetched,
            Report::Final { fetched, .. } => fetched,
        }
    }

    /// The reading this line shows.
    #[verifier::when_used_as_spec(spec_fetched)]
    pub fn fetched(self) -> (fetched: usize)
        ensures
            fetched == self.spec_fetched(),
    {
        match self {
            Report::Progress { fetched, .. } => fetched,
            Report::Final { fetched, .. } => fetched,
        }
    }

    /// The size this line measures the reading against.
    pub open spec fn spec_expected(self) -> usize {
        match self {
            Report::Progress { expected, .. } => expected,
            Report::Final { expected, .. } => expected,
        }
    }

    /// The size this line measures the reading against.
    #[verifier::when_used_as_spec(spec_expected)]
    pub fn expected(self) -> (expected: usize)
        ensures
            expected == self.spec_expected(),
    {
        match self {
            Report::Progress { expected, .. } => expected,
            Report::Final { expected, .. } => expected,
        }
    }

    /// Whether this is the summary line.
    pub open spec fn spec_is_final(self) -> bool {
        self is Final
    }

    /// Whether this is the summary line.
    #[verifier::when_used_as_spec(spec_is_final)]
    pub fn is_final(self) -> (last: bool)
        ensures
            last == self.spec_is_final(),
    {
        match self {
            Report::Progress { .. } => false,
            Report::Final { .. } => true,
        }
    }
}

/// The line a reading calls for: the summary once the reading is at or
/// past the expected size, a progress line before that.
pub open spec fn report_for(expected: usize, fetched: usize) -> Report {
    if fetched < expected {
        Report::Progress { fetched, expected }
    } else {
        Report::Final { fetched, expected }
    }
}

/// The state a reporter is in after giving out `report`.
pub open spec fn state_after(report: Report) -> ReporterState {
    if report is Final {
        ReporterState::Done
    } else {
        ReporterState::Polling
    }
}

/// Everything a reporter gives out when its successive readings are
/// `observations`: one line per reading, up to and including the first
/// summary line. Readings after that one are never taken.
pub open spec fn transcript(expected: usize, observations: Seq<usize>) -> Seq<Report>
    decreases observations.len(),
{
    if observations.len() == 0 {
        Seq::empty()
    } else {
        let line = report_for(expected, observations.first());
        if line is Final {
            seq![line]
        } else {
            seq![line] + transcript(expected, observations.drop_first())
        }
    }
}

/// Each line of a transcript is the line its reading calls for, and only
/// the last line can be the summary.
pub proof fn transcript_follows_readings(expected: usize, observations: Seq<usize>)
    ensures
        transcript(expected, observations).len() <= observations.len(),
        forall|i: int|
            0 <= i < transcript(expected, observations).len() ==> #[trigger] transcript(
                expected,
                observations,
            )[i] == report_for(expected, observations[i]),
        forall|i: int|
            0 <= i < transcript(expected, observations).len() - 1 ==> #[trigger] observations[i]
                < expected,
    decreases observations.len(),
{
    if observations.len() > 0 {
        let line = report_for(expected, observations.first());
        let rest = observations.drop_first();
        transcript_follows_readings(expected, rest);
        if !(line is Final) {
            let lines = transcript(expected, observations);
            assert(lines == seq![line] + transcript(expected, rest));
            assert forall|i: int| 0 <= i < lines.len() implies #[trigger] lines[i] == report_for(
                expected,
                observations[i],
            ) by {
                if i > 0 {
                    assert(lines[i] == transcript(expected, rest)[i - 1]);
                    assert(rest[i - 1] == observations[i]);
                }
            }
            assert forall|i: int| 0 <= i < lines.len() - 1 implies #[trigger] observations[i]
                < expected by {
                if i > 0 {
                    assert(rest[i - 1] == observations[i]);
                }
            }
        }
    }
}

/// A reporter whose readings never pass the expected size and reach it at
/// some point stops: it gives out at most one line per reading up to that
/// point, its last line is the summary with the count at the expected
/// size, and every line before it is a progress line with a smaller count.
pub proof fn reporter_stops_at_expected(expected: usize, observations: Seq<usize>, reached: int)
    requires
        forall|i: int| 0 <= i < observations.len() ==> #[trigger] observations[i] <= expected,
        0 <= reached < observations.len(),
        observations[reached] == expected,
    ensures
        0 < transcript(expected, observations).len() <= reached + 1,
        transcript(expected, observations).last() == (Report::Final { fetched: expected, expected }),
        forall|i: int|
            0 <= i < transcript(expected, observations).len() - 1 ==> #[trigger] transcript(
                expected,
                observations,
            )[i] == (Report::Progress { fetched: observations[i], expected }),
    decreases observations.len(),
{
    let line = report_for(expected, observations.first());
    if !(line is Final) {
        let rest = observations.drop_first();
        assert(reached > 0);
        assert forall|i: int| 0 <= i < rest.len() implies #[trigger] rest[i] <= expected by {
            assert(rest[i] == observations[i + 1]);
        }
        assert(rest[reached - 1] == observations[reached]);
        reporter_stops_at_expected(expected, rest, reached - 1);
        let lines = transcript(expected, observations);
        let tail = transcript(expected, rest);
        assert(lines == seq![line] + tail);
        assert(lines.last() == tail.last());
        assert forall|i: int| 0 <= i < lines.len() - 1 implies #[trigger] lines[i] == (
        Report::Progress { fetched: observations[i], expected }) by {
            if i > 0 {
                assert(lines[i] == tail[i - 1]);
                assert(rest[i - 1] == observations[i]);
            }
        }
    } else {
        assert(observations.first() <= expected);
    }
}

/// The periodic observer of a fetch.
pub struct ProgressReporter {
    expected: usize,
    state: ReporterState,
}

impl ProgressReporter {
    /// The size readings are measured against.
    pub closed spec fn spec_expected(&self) -> usize {
        self.expected
    }

    /// Where the reporter is in its life.
    pub closed spec fn spec_state(&self) -> ReporterState {
        self.state
    }

    /// A reporter for a fetch of `expected` bytes, ready to poll.
    pub fn new(expected: usize) -> (reporter: ProgressReporter)
        ensures
            reporter.expected() == expected,
            reporter.state() == ReporterState::Polling,
    {
        ProgressReporter { expected, state: ReporterState::Polling }
    }

    /// The size readings are measured against.
    #[verifier::when_used_as_spec(spec_expected)]
    pub fn expected(&self) -> (expected: usize)
        ensures
            expected == self.spec_expected(),
    {
        self.expected
    }

    /// Where the reporter is in its life.
    #[verifier::when_used_as_spec(spec_state)]
    pub fn state(&self) -> (state: ReporterState)
        ensures
            state == self.spec_state(),
    {
        self.state
    }

    /// Takes one reading of the count and answers with the line to print.
    ///
    /// A reading short of the expected size yields a progress line and
    /// leaves the reporter polling. The first reading at or past it yields
    /// the summary line and ends the reporter.
    pub fn observe(&mut self, fetched: usize) -> (report: Report)
        requires
            old(self).state() == ReporterState::Polling,
        ensures
            report == report_for(old(self).expected(), fetched),
            final(self).expected() == old(self).expected(),
            final(self).state() == state_after(report),
    {
        if fetched < self.expected {
            Report::Progress { fetched, expected: self.expected }
        } else {
            self.state = ReporterState::Done;
            Report::Final { fetched, expected: self.expected }
        }
    }

    /// Loads the shared count and observes what it holds.
    ///
    /// The value loaded is whatever the fetch has published by now, so the
    /// line is only known to be the one that the count it shows calls for.
    pub fn poll(&mut self, counter: &CountReader) -> (report: Report)
        requires
            old(self).state() == ReporterState::Polling,
        ensures
            report == report_for(old(self).expected(), report.fetched()),
            final(self).expected() == old(self).expected(),
            final(self).state() == state_after(report),
    {
        let fetched = counter.load();
        self.observe(fetched)
    }
}

} // verus!
