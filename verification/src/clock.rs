//! The clock that drives the animation: a fixed start, the latest sample,
//! and the whole milliseconds between them.

use vstd::prelude::*;

verus! {

/// An instant on the UTC time line: whole seconds since the Unix epoch and
/// the nanoseconds into that second.
#[derive(Clone, Copy, Debug, PartialEq, Eq, Structural, Hash)]
pub struct Timestamp {
    pub secs: i64,
    pub nanos: u32,
}

impl Timestamp {
    /// The instant as nanoseconds since the Unix epoch.
    pub open spec fn total_nanos(self) -> int {
        self.secs * 1_000_000_000 + self.nanos
    }
}

/// The whole milliseconds from `start` to `now`, rounded down. A `now` that
/// lies before `start` counts as no time at all.
pub open spec fn elapsed_millis(start: Timestamp, now: Timestamp) -> int {
    if now.total_nanos() <= start.total_nanos() {
        0
    } else {
        (now.total_nanos() - start.total_nanos()) / 1_000_000
    }
}

/// Reads the wall clock through `chrono::Utc::now` and takes the instant
/// apart with `DateTime::timestamp` and `DateTime::timestamp_subsec_nanos`.
/// `Utc::now` builds its value from a nanosecond part below one second, so
/// no leap-second encoding comes back. Nothing else is claimed: the clock
/// may be set back between two reads. `Utc::now` panics on a system clock
/// set before the Unix epoch.
#[verifier::external_body]
fn read_utc_clock() -> (t: Timestamp)
    ensures
        t.nanos < 1_000_000_000,
{
    let now = chrono::Utc::now();
    Timestamp { secs: now.timestamp(), nanos: now.timestamp_subsec_nanos() }
}

/// The elapsed-time source of one rendering session.
pub struct Control {
    start: Timestamp,
    now: Timestamp,
}

/// What the contracts see of a clock.
pub struct ControlView {
    pub start: Timestamp,
    pub now: Timestamp,
}

impl View for Control {
    type V = ControlView;

    closed spec fn view(&self) -> ControlView {
        ControlView { start: self.start, now: self.now }
    }
}

impl Control {
    /// A clock that starts now.
    pub fn new() -> (c: Control)
        ensures
            c@.now == c@.start,
            c@.start.nanos < 1_000_000_000,
    {
        let now = read_utc_clock();
        Control::starting_at(now)
    }

    /// A clock that starts at `start`, which is also its first sample.
    pub fn starting_at(start: Timestamp) -> (c: Control)
        ensures
            c@ == (ControlView { start, now: start }),
    {
        Control { start, now: start }
    }

    /// Samples the wall clock, keeps the sample, and returns the
    /// milliseconds since the start. Whatever the wall clock says, the start
    /// stays and the answer is the elapsed time of the kept sample.
    pub fn tick(&mut self) -> (ms: u128)
        ensures
            final(self)@.start == old(self)@.start,
            final(self)@.now.nanos < 1_000_000_000,
            ms == elapsed_millis(final(self)@.start, final(self)@.now),
    {
        let sample = read_utc_clock();
        self.advance(sample)
    }

    /// Takes `sample` as the latest reading and returns the milliseconds
    /// from the start to it; zero where the sample lies before the start.
    pub fn advance(&mut self, sample: Timestamp) -> (ms: u128)
        ensures
            final(self)@ == (ControlView { start: old(self)@.start, now: sample }),
            ms == elapsed_millis(old(self)@.start, sample),
    {
        self.now = sample;
        self.elapsed_ms()
    }

    /// The milliseconds from the start to the latest sample.
    pub fn elapsed_ms(&self) -> (ms: u128)
        ensures
            ms == elapsed_millis(self@.start, self@.now),
    {
        let span: i128 = self.span_nanos();
        if span <= 0 {
            0
        } else {
            (span / 1_000_000) as u128
        }
    }

    /// Whether the latest sample lies before the start, as after the wall
    /// clock was set back. The elapsed time then reads zero.
    pub fn ran_backwards(&self) -> (anomaly: bool)
        ensures
            anomaly == (self@.now.total_nanos() < self@.start.total_nanos()),
    {
        self.span_nanos() < 0
    }

    /// The nanoseconds from the start to the latest sample; negative where
    /// the sample lies before the start.
    fn span_nanos(&self) -> (span: i128)
        ensures
            span == self@.now.total_nanos() - self@.start.total_nanos(),
    {
        let secs: i128 = self.now.secs as i128 - self.start.secs as i128;
        let nanos: i128 = self.now.nanos as i128 - self.start.nanos as i128;
        secs * 1_000_000_000 + nanos
    }

    /// The instant at which the clock started.
    pub fn start(&self) -> (t: Timestamp)
        ensures
            t == self@.start,
    {
        self.start
    }

    /// The latest sample.
    pub fn last_sampled(&self) -> (t: Timestamp)
        ensures
            t == self@.now,
    {
        self.now
    }
}

/// A later sample never reads as less elapsed time.
pub proof fn elapsed_is_monotonic(start: Timestamp, earlier: Timestamp, later: Timestamp)
    requires
        earlier.total_nanos() <= later.total_nanos(),
    ensures
        elapsed_millis(start, earlier) <= elapsed_millis(start, later),
{
}

/// Two samples at or after the start that lie at least `n` whole
/// milliseconds apart read at least `n` milliseconds apart.
pub proof fn elapsed_grows_with_time(start: Timestamp, earlier: Timestamp, later: Timestamp, n: int)
    requires
        n >= 0,
        start.total_nanos() <= earlier.total_nanos(),
        earlier.total_nanos() + n * 1_000_000 <= later.total_nanos(),
    ensures
        elapsed_millis(start, later) - elapsed_millis(start, earlier) >= n,
{
}

} // verus!
