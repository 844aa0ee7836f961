use cache_lib::cache::{Cache, Lookup};
use std::cell::Cell;

// Instants handed to the cache are readings of a monotonic clock in
// nanoseconds; the unit is the caller's choice.
const SEC: u64 = 1_000_000_000;

#[test]
fn empty_cache_misses() {
    let cache: Cache<u64> = Cache::new();
    assert_eq!(cache.lookup("123", 0), Lookup::Miss);
    assert_eq!(cache.lookup("", 7 * SEC), Lookup::Miss);
}

#[test]
fn miss_then_compute_invokes_once_and_returns_result() {
    let mut cache: Cache<u64> = Cache::new();
    let calls = Cell::new(0u32);
    let result: Result<u64, String> = cache.get_or_insert_with("123".to_owned(), 10 * SEC, 0, || {
        calls.set(calls.get() + 1);
        Ok(500)
    });
    assert_eq!(result, Ok(500));
    assert_eq!(calls.get(), 1);
}

#[test]
fn hit_at_five_seconds_then_fresh_miss_at_eleven() {
    let mut cache: Cache<u64> = Cache::new();
    let calls = Cell::new(0u32);
    let compute = || -> Result<u64, String> {
        calls.set(calls.get() + 1);
        Ok(500)
    };

    let first = cache.get_or_insert_with("123".to_owned(), 10 * SEC, 0, compute);
    assert_eq!(first, Ok(500));
    assert_eq!(calls.get(), 1);

    // Within the window the stored value is served and the computation is
    // not run again, even if a fresh run would now produce something else.
    let second = cache.get_or_insert_with("123".to_owned(), 10 * SEC, 5 * SEC, || {
        calls.set(calls.get() + 1);
        Ok::<u64, String>(999)
    });
    assert_eq!(second, Ok(500));
    assert_eq!(calls.get(), 1);

    // Past the window the lookup is a fresh miss and the computation runs
    // again.
    let third = cache.get_or_insert_with("123".to_owned(), 10 * SEC, 11 * SEC, || {
        calls.set(calls.get() + 1);
        Ok::<u64, String>(777)
    });
    assert_eq!(third, Ok(777));
    assert_eq!(calls.get(), 2);
}

#[test]
fn failed_compute_is_not_cached() {
    let mut cache: Cache<u64> = Cache::new();
    let calls = Cell::new(0u32);

    let first: Result<u64, String> = cache.get_or_insert_with("abc".to_owned(), 10 * SEC, 0, || {
        calls.set(calls.get() + 1);
        Err("boom".to_owned())
    });
    assert_eq!(first, Err("boom".to_owned()));
    assert_eq!(calls.get(), 1);

    // The very next lookup, a millisecond later, runs the computation again
    // instead of serving the prior error.
    let second: Result<u64, String> =
        cache.get_or_insert_with("abc".to_owned(), 10 * SEC, SEC / 1000, || {
            calls.set(calls.get() + 1);
            Ok(42)
        });
    assert_eq!(second, Ok(42));
    assert_eq!(calls.get(), 2);
}

#[test]
fn failed_compute_leaves_store_unchanged() {
    let mut cache: Cache<u64> = Cache::new();
    cache.insert("abc".to_owned(), 5, 0, 10 * SEC);

    // The entry for "abc" has expired, so the computation runs; its failure
    // must neither remove the stale entry's key nor refresh it.
    let result: Result<u64, String> =
        cache.get_or_insert_with("abc".to_owned(), 10 * SEC, 20 * SEC, || Err("boom".to_owned()));
    assert_eq!(result, Err("boom".to_owned()));
    assert_eq!(cache.lookup("abc", 21 * SEC), Lookup::Miss);

    // An unrelated fresh entry is untouched by the failure.
    cache.insert("other".to_owned(), 9, 20 * SEC, 10 * SEC);
    let failed: Result<u64, String> =
        cache.get_or_insert_with("abc".to_owned(), 10 * SEC, 22 * SEC, || Err("boom".to_owned()));
    assert!(failed.is_err());
    assert_eq!(cache.lookup("other", 22 * SEC), Lookup::Hit { value: 9, remaining: 8 * SEC });
}

#[test]
fn two_interleaved_misses_both_compute_and_last_write_wins() {
    // Two callers that look up the same never-seen key before either has
    // stored a result both take the compute path: the design permits the
    // duplicated work rather than preventing it, and whichever result is
    // stored last is the one served afterwards.
    let mut cache: Cache<u64> = Cache::new();

    let first_sees = cache.lookup("123", 0);
    let second_sees = cache.lookup("123", 0);
    assert_eq!(first_sees, Lookup::Miss);
    assert_eq!(second_sees, Lookup::Miss);

    // Both computations ran; their inserts land in some order.
    cache.insert("123".to_owned(), 500, 0, 10 * SEC);
    cache.insert("123".to_owned(), 600, SEC, 10 * SEC);

    assert_eq!(cache.lookup("123", 2 * SEC), Lookup::Hit { value: 600, remaining: 9 * SEC });
}

#[test]
fn remaining_time_is_expiry_minus_now() {
    let mut cache: Cache<u64> = Cache::new();
    cache.insert("k".to_owned(), 1, 2 * SEC, 10 * SEC);
    assert_eq!(cache.lookup("k", 5 * SEC), Lookup::Hit { value: 1, remaining: 7 * SEC });
    assert_eq!(cache.lookup("k", 2 * SEC), Lookup::Hit { value: 1, remaining: 10 * SEC });
}

#[test]
fn expiry_instant_itself_is_a_miss() {
    let mut cache: Cache<u64> = Cache::new();
    cache.insert("k".to_owned(), 1, 0, 10 * SEC);
    assert_eq!(cache.lookup("k", 10 * SEC - 1), Lookup::Hit { value: 1, remaining: 1 });
    assert_eq!(cache.lookup("k", 10 * SEC), Lookup::Miss);
    assert_eq!(cache.lookup("k", 10 * SEC + 1), Lookup::Miss);
}

#[test]
fn zero_ttl_is_never_fresh() {
    let mut cache: Cache<u64> = Cache::new();
    cache.insert("k".to_owned(), 1, 5 * SEC, 0);
    assert_eq!(cache.lookup("k", 5 * SEC), Lookup::Miss);
}

#[test]
fn successful_compute_supersedes_stale_entry() {
    let mut cache: Cache<u64> = Cache::new();
    cache.insert("k".to_owned(), 1, 0, 5 * SEC);

    let result: Result<u64, String> =
        cache.get_or_insert_with("k".to_owned(), 10 * SEC, 6 * SEC, || Ok(2));
    assert_eq!(result, Ok(2));
    assert_eq!(cache.lookup("k", 7 * SEC), Lookup::Hit { value: 2, remaining: 9 * SEC });
}

#[test]
fn store_if_ok_writes_only_on_success() {
    let mut cache: Cache<u64> = Cache::new();
    cache.store_if_ok::<String>("k".to_owned(), &Err("boom".to_owned()), 0, 10 * SEC);
    assert_eq!(cache.lookup("k", 0), Lookup::Miss);

    cache.store_if_ok::<String>("k".to_owned(), &Ok(3), 0, 10 * SEC);
    assert_eq!(cache.lookup("k", SEC), Lookup::Hit { value: 3, remaining: 9 * SEC });

    cache.store_if_ok::<String>("k".to_owned(), &Err("boom".to_owned()), 2 * SEC, 10 * SEC);
    assert_eq!(cache.lookup("k", 2 * SEC), Lookup::Hit { value: 3, remaining: 8 * SEC });
}

#[test]
fn keys_are_independent() {
    let mut cache: Cache<u64> = Cache::new();
    cache.insert("a".to_owned(), 1, 0, 10 * SEC);
    cache.insert("b".to_owned(), 2, 0, 20 * SEC);
    assert_eq!(cache.lookup("a", 5 * SEC), Lookup::Hit { value: 1, remaining: 5 * SEC });
    assert_eq!(cache.lookup("b", 5 * SEC), Lookup::Hit { value: 2, remaining: 15 * SEC });
    assert_eq!(cache.lookup("a", 15 * SEC), Lookup::Miss);
    assert_eq!(cache.lookup("b", 15 * SEC), Lookup::Hit { value: 2, remaining: 5 * SEC });
}
