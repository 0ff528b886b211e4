//! The precomputed ground-path snapshot and the sampling loop that fills it.

use vstd::prelude::*;

verus! {

/// Age, in seconds, at which a path snapshot must be recomputed.
pub const PATH_MAX_AGE_SECS: i64 = 30;

/// Spacing, in seconds, between two consecutive path samples.
pub const PATH_STEP_SECS: i64 = 60;

/// Length, in seconds, of the forward window a snapshot covers (92 minutes).
pub const PATH_WINDOW_SECS: i64 = 5520;

/// Number of samples in a snapshot: both ends of the window are included.
pub const PATH_SAMPLE_COUNT: usize = 93;

/// The time of the `i`-th sample of a window that starts at `start`.
pub open spec fn sample_time(start: int, i: int) -> int {
    start + PATH_STEP_SECS * i
}

/// The times a resolver is asked for, in order, when a window starts at
/// `start` can all be held as `i64`.
pub open spec fn window_fits(start: int) -> bool {
    i64::MIN <= start && start + PATH_WINDOW_SECS <= i64::MAX
}

/// `resolve` accepts every sample time of the window that starts at `start`.
pub open spec fn resolver_ready<P, E, F: Fn(i64) -> Result<P, E>>(start: int, resolve: F) -> bool {
    forall|t: i64| start <= t <= start + PATH_WINDOW_SECS ==> #[trigger] resolve.requires((t,))
}

/// `samples` holds, in order, what `resolve` returned for each sample time of
/// the window that starts at `start`.
pub open spec fn samples_resolved<P, E, F: Fn(i64) -> Result<P, E>>(
    start: int,
    samples: Seq<P>,
    resolve: F,
) -> bool {
    &&& samples.len() == PATH_SAMPLE_COUNT
    &&& forall|i: int|
        0 <= i < samples.len() ==> resolve.ensures(
            (sample_time(start, i) as i64,),
            Ok::<P, E>(#[trigger] samples[i]),
        )
}

/// `e` is what `resolve` failed with at one of the sample times of the window
/// that starts at `start`.
pub open spec fn failed_in_window<P, E, F: Fn(i64) -> Result<P, E>>(start: int, e: E, resolve: F) -> bool {
    exists|i: int|
        0 <= i < PATH_SAMPLE_COUNT && #[trigger] resolve.ensures(
            (sample_time(start, i) as i64,),
            Err::<P, E>(e),
        )
}

/// The last sample of a window falls exactly on its end.
pub proof fn lemma_last_sample_at_window_end(start: int)
    ensures
        sample_time(start, PATH_SAMPLE_COUNT - 1) == start + PATH_WINDOW_SECS,
{
}

/// Samples `resolve` from `start` through `start + PATH_WINDOW_SECS`, one
/// sample every `PATH_STEP_SECS` seconds, both ends included. Stops at the
/// first failure and returns it.
pub fn sample_path<P, E, F: Fn(i64) -> Result<P, E>>(start: i64, resolve: F) -> (r: Result<Vec<P>, E>)
    requires
        window_fits(start as int),
        resolver_ready(start as int, resolve),
    ensures
        match r {
            Ok(samples) => samples_resolved(start as int, samples@, resolve),
            Err(e) => failed_in_window(start as int, e, resolve),
        },
{
    let mut samples: Vec<P> = Vec::new();
    let mut i: usize = 0;
    while i < PATH_SAMPLE_COUNT
        invariant
            window_fits(start as int),
            resolver_ready(start as int, resolve),
            i <= PATH_SAMPLE_COUNT,
            samples.len() == i,
            forall|j: int|
                0 <= j < i ==> resolve.ensures(
                    (sample_time(start as int, j) as i64,),
                    Ok::<P, E>(#[trigger] samples@[j]),
                ),
        decreases PATH_SAMPLE_COUNT - i,
    {
        let t: i64 = start + PATH_STEP_SECS * (i as i64);
        assert(resolve.requires((t,)));
        match resolve(t) {
            Ok(p) => samples.push(p),
            Err(e) => {
                assert(resolve.ensures((sample_time(start as int, i as int) as i64,), Err::<P, E>(e)));
                return Err(e);
            },
        }
        i = i + 1;
    }
    Ok(samples)
}

/// A path snapshot: when it was computed and the positions sampled from then on.
/// `time` is `None` only before the first computation.
#[derive(Debug)]
pub struct Path<P> {
    pub time: Option<i64>,
    pub path: Vec<P>,
}

impl<P> Path<P> {
    /// A recomputation is due at `now`: nothing was computed yet, or the
    /// snapshot is at least `PATH_MAX_AGE_SECS` old.
    pub open spec fn stale_at(&self, now: int) -> bool {
        match self.time {
            None => true,
            Some(t) => t <= now - PATH_MAX_AGE_SECS,
        }
    }

    /// An empty snapshot, as at process start.
    pub fn new() -> (r: Path<P>)
        ensures
            r.time is None,
            r.path@.len() == 0,
    {
        Path { time: None, path: Vec::new() }
    }

    /// Whether a recomputation is due at `now`.
    pub fn is_stale(&self, now: i64) -> (r: bool)
        ensures
            r == self.stale_at(now as int),
    {
        match self.time {
            None => true,
            Some(t) => {
                if now < i64::MIN + PATH_MAX_AGE_SECS {
                    false
                } else {
                    t <= now - PATH_MAX_AGE_SECS
                }
            },
        }
    }

    /// Recomputes the snapshot from `now` on. The whole snapshot is replaced
    /// when every sample succeeds, and left as it was otherwise.
    pub fn refresh<E, F: Fn(i64) -> Result<P, E>>(&mut self, now: i64, resolve: F) -> (r: Result<(), E>)
        requires
            window_fits(now as int),
            resolver_ready(now as int, resolve),
        ensures
            match r {
                Ok(()) => {
                    &&& final(self).time == Some(now)
                    &&& samples_resolved(now as int, final(self).path@, resolve)
                },
                Err(e) => {
                    &&& *final(self) == *old(self)
                    &&& failed_in_window(now as int, e, resolve)
                },
            },
    {
        match sample_path(now, resolve) {
            Ok(samples) => {
                self.time = Some(now);
                self.path = samples;
                Ok(())
            },
            Err(e) => Err(e),
        }
    }
}

impl<P: Copy> Path<P> {
    /// An independent copy of the snapshot.
    pub fn snapshot(&self) -> (r: Path<P>)
        ensures
            r.time == self.time,
            r.path@ == self.path@,
    {
        let mut out: Vec<P> = Vec::new();
        let mut i: usize = 0;
        while i < self.path.len()
            invariant
                i <= self.path.len(),
                out@ == self.path@.subrange(0, i as int),
            decreases self.path.len() - i,
        {
            out.push(self.path[i]);
            i = i + 1;
        }
        assert(out@ =~= self.path@);
        Path { time: self.time, path: out }
    }

    /// Serves the snapshot for a request at `now`, recomputing it first when
    /// it is stale. A fresh snapshot is served as it stands, without a call of
    /// `resolve`.
    pub fn get_or_refresh<E, F: Fn(i64) -> Result<P, E>>(&mut self, now: i64, resolve: F) -> (r: Result<Path<P>, E>)
        requires
            window_fits(now as int),
            resolver_ready(now as int, resolve),
        ensures
            !old(self).stale_at(now as int) ==> {
                &&& *final(self) == *old(self)
                &&& r is Ok
            },
            old(self).stale_at(now as int) ==> match r {
                Ok(s) => {
                    &&& s.time == Some(now)
                    &&& samples_resolved(now as int, s.path@, resolve)
                    &&& resolve.ensures((now,), Ok::<P, E>(s.path@[0]))
                },
                Err(e) => {
                    &&& *final(self) == *old(self)
                    &&& failed_in_window(now as int, e, resolve)
                },
            },
            r is Ok ==> {
                &&& r->Ok_0.time == final(self).time
                &&& r->Ok_0.path@ == final(self).path@
            },
    {
        if self.is_stale(now) {
            match self.refresh(now, resolve) {
                Ok(()) => {},
                Err(e) => return Err(e),
            }
        }
        Ok(self.snapshot())
    }
}

/// A snapshot computed at `t0` is served unchanged to every request made
/// after it and less than `PATH_MAX_AGE_SECS` seconds after `t0`: two such
/// requests receive the same snapshot and neither recomputes it.
pub proof fn lemma_path_served_unchanged<P>(p: Path<P>, t0: int, t1: int, t2: int)
    requires
        p.time == Some(t0 as i64),
        i64::MIN <= t0 <= i64::MAX,
        t0 <= t1 <= t2,
        t2 - t0 < PATH_MAX_AGE_SECS,
    ensures
        !p.stale_at(t1),
        !p.stale_at(t2),
{
}

} // verus!
