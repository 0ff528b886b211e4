use iss_tracker::path::{
    sample_path, Path, PATH_MAX_AGE_SECS, PATH_SAMPLE_COUNT, PATH_STEP_SECS, PATH_WINDOW_SECS,
};
use std::cell::Cell;

fn fake_position(t: i64) -> (f64, f64) {
    ((t % 180) as f64 - 90.0, (t % 360) as f64 - 180.0)
}

#[test]
fn sample_path_covers_window_inclusive() {
    let start: i64 = 1_658_000_000;
    let times = sample_path(start, |t: i64| -> Result<i64, ()> { Ok(t) }).unwrap();
    assert_eq!(times.len(), 93);
    assert_eq!(PATH_SAMPLE_COUNT, 93);
    assert_eq!(times[0], start);
    assert_eq!(times[92], start + 92 * 60);
    assert_eq!(times[92], start + PATH_WINDOW_SECS);
    for (i, t) in times.iter().enumerate() {
        assert_eq!(*t, start + PATH_STEP_SECS * i as i64);
    }
}

#[test]
fn sample_path_stops_at_first_failure() {
    let calls = Cell::new(0u32);
    let r = sample_path(0, |t: i64| -> Result<i64, i64> {
        calls.set(calls.get() + 1);
        if t >= 600 { Err(t) } else { Ok(t) }
    });
    assert_eq!(r, Err(600));
    assert_eq!(calls.get(), 11);
}

#[test]
fn empty_path_is_stale() {
    let p: Path<(f64, f64)> = Path::new();
    assert!(p.time.is_none());
    assert!(p.path.is_empty());
    assert!(p.is_stale(0));
}

#[test]
fn path_staleness_boundary() {
    let mut p: Path<i64> = Path::new();
    p.refresh(100, |t: i64| -> Result<i64, ()> { Ok(t) }).unwrap();
    assert!(!p.is_stale(100));
    assert!(!p.is_stale(100 + PATH_MAX_AGE_SECS - 1));
    assert!(p.is_stale(100 + PATH_MAX_AGE_SECS));
}

#[test]
fn refreshed_snapshot_first_sample_is_resolver_at_computed_at() {
    let mut p: Path<(f64, f64)> = Path::new();
    let now: i64 = 1_658_224_000;
    let s = p.get_or_refresh(now, |t: i64| -> Result<(f64, f64), ()> { Ok(fake_position(t)) }).unwrap();
    assert_eq!(s.time, Some(now));
    assert_eq!(s.path.len(), 93);
    assert_eq!(s.path[0], fake_position(now));
    assert_eq!(s.path[1], fake_position(now + 60));
    assert_eq!(s.path[92], fake_position(now + 5520));
}

#[test]
fn requests_within_max_age_share_one_snapshot() {
    let calls = Cell::new(0u32);
    let resolve = |t: i64| -> Result<(f64, f64), ()> {
        calls.set(calls.get() + 1);
        Ok(fake_position(t))
    };
    let mut p: Path<(f64, f64)> = Path::new();
    let a = p.get_or_refresh(1000, &resolve).unwrap();
    let b = p.get_or_refresh(1029, &resolve).unwrap();
    assert_eq!(calls.get(), 93);
    assert_eq!(a.time, b.time);
    assert_eq!(a.path, b.path);
}

#[test]
fn back_to_back_stale_requests_recompute_once() {
    let calls = Cell::new(0u32);
    let resolve = |t: i64| -> Result<i64, ()> {
        calls.set(calls.get() + 1);
        Ok(t)
    };
    let mut p: Path<i64> = Path::new();
    p.get_or_refresh(0, &resolve).unwrap();
    calls.set(0);
    // Two requests arrive when the snapshot is stale; the second is served
    // after the first has recomputed it.
    let a = p.get_or_refresh(40, &resolve).unwrap();
    let b = p.get_or_refresh(40, &resolve).unwrap();
    assert_eq!(calls.get(), 93);
    assert_eq!(a.time, Some(40));
    assert_eq!(b.time, Some(40));
}

#[test]
fn stale_snapshot_is_recomputed() {
    let mut p: Path<i64> = Path::new();
    let a = p.get_or_refresh(0, |t: i64| -> Result<i64, ()> { Ok(t) }).unwrap();
    let b = p.get_or_refresh(30, |t: i64| -> Result<i64, ()> { Ok(t) }).unwrap();
    assert_eq!(a.time, Some(0));
    assert_eq!(b.time, Some(30));
    assert_eq!(b.path[0], 30);
}

#[test]
fn failed_refresh_keeps_previous_snapshot() {
    let mut p: Path<i64> = Path::new();
    p.get_or_refresh(0, |t: i64| -> Result<i64, ()> { Ok(t) }).unwrap();
    let r = p.get_or_refresh(100, |t: i64| -> Result<i64, &'static str> {
        if t > 200 { Err("propagation failed") } else { Ok(t) }
    });
    assert_eq!(r.unwrap_err(), "propagation failed");
    assert_eq!(p.time, Some(0));
    assert_eq!(p.path.len(), 93);
    assert_eq!(p.path[0], 0);
}

#[test]
fn snapshot_is_independent_copy() {
    let mut p: Path<i64> = Path::new();
    p.refresh(0, |t: i64| -> Result<i64, ()> { Ok(t) }).unwrap();
    let copy = p.snapshot();
    p.refresh(100, |t: i64| -> Result<i64, ()> { Ok(-t) }).unwrap();
    assert_eq!(copy.time, Some(0));
    assert_eq!(copy.path[5], 300);
    assert_eq!(p.path[5], -400);
}
