//! The orbital element cache and the fetch fallback policy.

use vstd::prelude::*;

verus! {

/// Maximum age, in seconds, of a cached element pair before a refresh is due.
pub const ELEMENT_MAX_AGE_SECS: i64 = 3600;

/// First element line used whenever the provider cannot be reached or read.
pub const FALLBACK_LINE1: &'static str = "1 25544C 98067A   22200.25763889 -.00062278  00000-0 -10890-2 0   600";

/// Second element line used whenever the provider cannot be reached or read.
pub const FALLBACK_LINE2: &'static str = "2 25544  51.6399 177.7528 0005075  27.4260 127.4524 15.49998601    18";

/// Why a fetch from the element provider produced no usable response.
#[derive(Clone, Copy, Debug, PartialEq, Eq, Structural)]
pub enum FetchError {
    /// The request could not be sent or no response came back.
    Transport,
    /// The response body did not have the expected shape.
    Parse,
}

/// The provider's response document, as far as this service reads it.
#[derive(Debug)]
pub struct Events {
    pub context: Option<String>,
    pub id: Option<String>,
    pub events_type: Option<String>,
    pub satellite_id: Option<i64>,
    pub name: Option<String>,
    pub date: Option<String>,
    pub line1: Option<String>,
    pub line2: Option<String>,
}

/// The cached orbital element pair and the time it was last replaced.
///
/// Either both lines are present or both are absent; they are absent only
/// before the first refresh.
#[derive(Debug)]
pub struct IssTLE {
    pub last_updated: i64,
    pub line1: Option<String>,
    pub line2: Option<String>,
}

/// A response is usable when it carries both element lines.
pub open spec fn response_usable(r: Result<Events, FetchError>) -> bool {
    r is Ok && r->Ok_0.line1 is Some && r->Ok_0.line2 is Some
}

/// The element pair that a fetch outcome yields under the fallback policy.
pub open spec fn response_lines(r: Result<Events, FetchError>) -> (Seq<char>, Seq<char>) {
    if response_usable(r) {
        (r->Ok_0.line1->Some_0@, r->Ok_0.line2->Some_0@)
    } else {
        (FALLBACK_LINE1@, FALLBACK_LINE2@)
    }
}

impl IssTLE {
    /// Both lines are present or both are absent.
    pub open spec fn wf(&self) -> bool {
        self.line1.is_some() == self.line2.is_some()
    }

    /// The cache holds an element pair.
    pub open spec fn is_loaded(&self) -> bool {
        self.line1.is_some()
    }

    /// The element pair, as character sequences.
    pub open spec fn lines(&self) -> (Seq<char>, Seq<char>) {
        (self.line1->Some_0@, self.line2->Some_0@)
    }

    /// A refresh is due at `now`: nothing is loaded yet, or the pair is
    /// older than the maximum age.
    pub open spec fn stale_at(&self, now: int) -> bool {
        !self.is_loaded() || now - self.last_updated > ELEMENT_MAX_AGE_SECS
    }

    /// An empty cache, as at process start.
    pub fn new() -> (r: IssTLE)
        ensures
            r.wf(),
            !r.is_loaded(),
            r.last_updated == 0,
    {
        IssTLE { last_updated: 0, line1: None, line2: None }
    }

    /// Whether a refresh is due at `now`.
    pub fn is_stale(&self, now: i64) -> (r: bool)
        ensures
            r == self.stale_at(now as int),
    {
        if self.line1.is_none() {
            true
        } else if now < i64::MIN + ELEMENT_MAX_AGE_SECS {
            false
        } else {
            self.last_updated < now - ELEMENT_MAX_AGE_SECS
        }
    }

    /// The element set that a fetch made at `now` yields: the response's
    /// lines when it carries both, otherwise the fixed fallback pair. The
    /// refresh time is `now` either way.
    pub fn from_response(response: Result<Events, FetchError>, now: i64) -> (r: IssTLE)
        ensures
            r.wf(),
            r.is_loaded(),
            r.lines() == response_lines(response),
            r.last_updated == now,
    {
        match response {
            Ok(ev) => {
                match (ev.line1, ev.line2) {
                    (Some(l1), Some(l2)) => IssTLE { last_updated: now, line1: Some(l1), line2: Some(l2) },
                    _ => IssTLE::fallback(now),
                }
            },
            Err(_) => IssTLE::fallback(now),
        }
    }

    /// The fixed fallback element pair, stamped with `now`.
    pub fn fallback(now: i64) -> (r: IssTLE)
        ensures
            r.wf(),
            r.is_loaded(),
            r.lines() == (FALLBACK_LINE1@, FALLBACK_LINE2@),
            r.last_updated == now,
    {
        IssTLE {
            last_updated: now,
            line1: Some(FALLBACK_LINE1.to_owned()),
            line2: Some(FALLBACK_LINE2.to_owned()),
        }
    }

    /// Replaces the whole element set with what a fetch made at `now` yields.
    pub fn refresh(&mut self, response: Result<Events, FetchError>, now: i64)
        ensures
            final(self).wf(),
            final(self).is_loaded(),
            final(self).lines() == response_lines(response),
            !response_usable(response) ==> final(self).lines() == (FALLBACK_LINE1@, FALLBACK_LINE2@),
            final(self).last_updated == now,
    {
        *self = IssTLE::from_response(response, now);
    }

    /// A copy of the element pair.
    pub fn current_lines(&self) -> (r: (String, String))
        requires
            self.wf(),
            self.is_loaded(),
        ensures
            (r.0@, r.1@) == self.lines(),
    {
        match (&self.line1, &self.line2) {
            (Some(l1), Some(l2)) => (l1.clone(), l2.clone()),
            _ => (String::new(), String::new()),
        }
    }
}

/// An element pair refreshed at `t0` is served without a new fetch to every
/// request made from `t0` on, up to `ELEMENT_MAX_AGE_SECS` seconds after it.
pub proof fn lemma_elements_served_without_fetch(e: IssTLE, t0: int, t1: int, t2: int)
    requires
        e.is_loaded(),
        e.last_updated == t0,
        t0 <= t1 < t2,
        t2 - t0 < ELEMENT_MAX_AGE_SECS,
    ensures
        forall|t: int| t1 <= t <= t2 ==> !#[trigger] e.stale_at(t),
{
}

} // verus!
