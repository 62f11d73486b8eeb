use vstd::prelude::*;
use std::time::{Duration, Instant};

verus! {

#[verifier::external_type_specification]
#[verifier::external_body]
pub struct ExInstant(std::time::Instant);

/// Relies on `std::time::Instant::now`: the current instant of a monotonic clock.
#[verifier::external_body]
fn clock_now() -> (r: Instant) {
    Instant::now()
}

/// Relies on `std::time::Instant::elapsed`: the time passed since `start`.
#[verifier::external_body]
fn elapsed_since(start: &Instant) -> (r: Duration) {
    start.elapsed()
}

/// Relies on `fastrand::u64`: a uniformly drawn number from `0` to `max`,
/// both included.
#[verifier::external_body]
fn random_up_to(max: u64) -> (r: u64)
    ensures
        r <= max,
{
    fastrand::u64(0..=max)
}

#[verifier::external_type_specification]
#[verifier::external_body]
pub struct ExAnyhowError(anyhow::Error);

/// Relies on `anyhow::Error::context`: wraps `e` under the message that a
/// test file could not be downloaded.
#[verifier::external_body]
fn download_failed(e: anyhow::Error) -> (r: anyhow::Error) {
    e.context("could not download test file")
}

/// Runs `f` (a download) and measures how long it took. On success the
/// elapsed time is returned and `f`'s output dropped; an error of `f` comes
/// back wrapped under "could not download test file".
pub fn measure_time<F: FnOnce() -> Result<Vec<u8>, anyhow::Error>>(f: F) -> (r: Result<
    Duration,
    anyhow::Error,
>)
    requires
        f.requires(()),
    ensures
        r is Ok ==> exists|out: Vec<u8>| f.ensures((), Ok::<Vec<u8>, anyhow::Error>(out)),
        r is Err ==> exists|e: anyhow::Error| f.ensures((), Err::<Vec<u8>, anyhow::Error>(e)),
{
    let start = clock_now();
    match f() {
        Ok(_) => Ok(elapsed_since(&start)),
        Err(e) => Err(download_failed(e)),
    }
}

/// A random pause, in seconds, from zero to twice `interval`, so that pauses
/// average to `interval`.
pub fn random_wait_secs(interval: u64) -> (r: u64)
    requires
        interval <= u64::MAX / 2,
    ensures
        r <= 2 * interval,
{
    random_up_to(interval * 2)
}

/// One timed download of a test group.
#[derive(Clone, Copy, PartialEq, Eq, Debug, Structural)]
pub struct Measurement {
    /// How long the download took, in milliseconds.
    pub download_time: u128,
    /// When it was made, in seconds since the Unix epoch.
    pub timestamp: u64,
}

/// The downloads a test group makes for an iteration count: the count plus one.
pub open spec fn planned_downloads(iterations: u32) -> nat {
    iterations as nat + 1
}

/// The progress of one test group: its timed downloads so far, and whether one
/// failed, which ends the group.
pub struct GroupRun {
    planned: u64,
    measurements: Vec<Measurement>,
    failed: bool,
}

impl GroupRun {
    /// How many downloads the group makes at most.
    pub closed spec fn planned(&self) -> nat {
        self.planned as nat
    }

    /// The measurements recorded so far, in order.
    pub closed spec fn recorded(&self) -> Seq<Measurement> {
        self.measurements@
    }

    /// Whether a download of the group failed.
    pub closed spec fn has_failed(&self) -> bool {
        self.failed
    }

    /// The group is consistent: no more measurements than planned.
    pub open spec fn wf(&self) -> bool {
        self.recorded().len() <= self.planned()
    }

    /// Whether another download is due: none failed and fewer than planned
    /// were made.
    pub open spec fn due(&self) -> bool {
        !self.has_failed() && self.recorded().len() < self.planned()
    }

    /// A group about to start, for `iterations` as configured.
    pub fn new(iterations: u32) -> (r: Self)
        ensures
            r.wf(),
            r.planned() == planned_downloads(iterations),
            r.recorded() == Seq::<Measurement>::empty(),
            !r.has_failed(),
    {
        GroupRun { planned: iterations as u64 + 1, measurements: Vec::new(), failed: false }
    }

    /// Whether another download is due.
    pub fn wants_download(&self) -> (r: bool)
        requires
            self.wf(),
        ensures
            r == self.due(),
    {
        !self.failed && (self.measurements.len() as u64) < self.planned
    }

    /// Records a download that succeeded.
    pub fn record_success(&mut self, m: Measurement)
        requires
            old(self).wf(),
            old(self).due(),
        ensures
            final(self).wf(),
            final(self).recorded() == old(self).recorded().push(m),
            final(self).planned() == old(self).planned(),
            !final(self).has_failed(),
    {
        self.measurements.push(m);
    }

    /// Records a download that failed: the group ends, keeping what it had.
    pub fn record_failure(&mut self)
        requires
            old(self).wf(),
        ensures
            final(self).wf(),
            final(self).recorded() == old(self).recorded(),
            final(self).planned() == old(self).planned(),
            final(self).has_failed(),
            !final(self).due(),
    {
        self.failed = true;
    }

    /// Whether a download of the group failed.
    pub fn failed(&self) -> (r: bool)
        ensures
            r == self.has_failed(),
    {
        self.failed
    }

    /// The measurements recorded, in order.
    pub fn measurements(&self) -> (r: &Vec<Measurement>)
        ensures
            r@ == self.recorded(),
    {
        &self.measurements
    }
}

/// The outcome of one test group as it goes into the result record.
pub struct GroupResult {
    pub name: String,
    pub measurements: Vec<Measurement>,
    pub failed: bool,
}

/// The result record of one connect cycle.
pub struct ProbeRecord {
    /// Hostname of the exit used.
    pub exit: String,
    /// The account has a subscription.
    pub is_plus: bool,
    /// Milliseconds from the start of the connect cycle to readiness.
    pub time_to_connect: u128,
    /// The test groups, in the order they ran.
    pub groups: Vec<GroupResult>,
}

impl ProbeRecord {
    /// A record with no test group yet.
    pub fn new(exit: String, is_plus: bool, time_to_connect: u128) -> (r: Self)
        ensures
            r.exit == exit,
            r.is_plus == is_plus,
            r.time_to_connect == time_to_connect,
            r.groups@.len() == 0,
    {
        ProbeRecord { exit, is_plus, time_to_connect, groups: Vec::new() }
    }

    /// Adds the outcome of a finished group under `name`, failed or not: what
    /// it measured is kept either way.
    pub fn add_group(&mut self, name: String, run: GroupRun)
        ensures
            final(self).exit == old(self).exit,
            final(self).is_plus == old(self).is_plus,
            final(self).time_to_connect == old(self).time_to_connect,
            final(self).groups@.len() == old(self).groups@.len() + 1,
            forall|i: int|
                0 <= i < old(self).groups@.len() ==> #[trigger] final(self).groups@[i] == old(
                    self,
                ).groups@[i],
            final(self).groups@.last().name == name,
            final(self).groups@.last().measurements@ == run.recorded(),
            final(self).groups@.last().failed == run.has_failed(),
    {
        let GroupRun { planned: _, measurements, failed } = run;
        self.groups.push(GroupResult { name, measurements, failed });
    }
}

} // verus!
