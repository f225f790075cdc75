use udco2s::cache::{apply_acquisition, cache_lookup, should_use_cache};
use udco2s::clock::now_time;
use udco2s::reading::{AcquisitionError, Decimal, Log, UDCO2SStat};

fn reading(co2ppm: i32) -> UDCO2SStat {
    UDCO2SStat {
        co2ppm,
        humidity: Decimal { negative: false, whole: 45, frac: 2, frac_len: 1 },
        temperature: Decimal { negative: false, whole: 23, frac: 1, frac_len: 1 },
    }
}

/// A driver stand-in that records how often it was invoked.
struct CountingDriver {
    calls: usize,
    answer: UDCO2SStat,
}

impl CountingDriver {
    fn acquire(&mut self) -> Result<UDCO2SStat, AcquisitionError> {
        self.calls += 1;
        Ok(self.answer)
    }
}

/// The read path of one request: serve the cache while fresh, else run
/// one acquisition and commit its outcome under the same exclusive
/// access.
fn get_reading(
    cell: &mut Log,
    window: u16,
    now: i64,
    driver: &mut CountingDriver,
) -> Result<Log, AcquisitionError> {
    if let Some(entry) = cache_lookup(cell, window, now) {
        return Ok(entry);
    }
    let outcome = driver.acquire();
    apply_acquisition(cell, outcome, now)
}

#[test]
fn fresh_entry_is_served_verbatim_without_driver_call() {
    let entry = Log { time: 1000, status: reading(415) };
    let mut cell = entry;
    let mut driver = CountingDriver { calls: 0, answer: reading(999) };
    for now in [1000, 1001, 1002, 1003] {
        let got = get_reading(&mut cell, 4, now, &mut driver).unwrap();
        assert_eq!(got, entry);
    }
    assert_eq!(driver.calls, 0);
    assert_eq!(cell, entry);
}

#[test]
fn stale_entry_invokes_driver_exactly_once_per_call() {
    let mut cell = Log { time: 1000, status: reading(415) };
    let mut driver = CountingDriver { calls: 0, answer: reading(999) };
    let got = get_reading(&mut cell, 4, 1004, &mut driver).unwrap();
    assert_eq!(driver.calls, 1);
    assert_eq!(got, Log { time: 1004, status: reading(999) });
    assert_eq!(cell, got);
}

#[test]
fn freshness_boundary_is_strict() {
    let entry = Log { time: 1000, status: reading(415) };
    assert!(should_use_cache(&entry, 4, 1003)); // one second left
    assert!(!should_use_cache(&entry, 4, 1004)); // window fully elapsed
    assert!(should_use_cache(&entry, 0, 999)); // clock ran backwards
    assert!(!should_use_cache(&entry, 0, 1000)); // zero window never hits
}

#[test]
fn four_second_window_scenario() {
    // Freshness window 4 s, requests at t0, t0+2 and t0+5.
    let t0: i64 = 1000;
    let mut cell = Log::sentinel();
    let mut driver = CountingDriver { calls: 0, answer: reading(415) };

    // t0: the sentinel is stale, so the first request acquires A.
    let a = get_reading(&mut cell, 4, t0, &mut driver).unwrap();
    assert_eq!(driver.calls, 1);
    assert_eq!(a, Log { time: t0, status: reading(415) });

    // t0+2: still fresh; A comes back unchanged, no acquisition.
    driver.answer = reading(888);
    let again = get_reading(&mut cell, 4, t0 + 2, &mut driver).unwrap();
    assert_eq!(driver.calls, 1);
    assert_eq!(again, a);

    // t0+5: the window has elapsed; the driver is invoked again.
    let b = get_reading(&mut cell, 4, t0 + 5, &mut driver).unwrap();
    assert_eq!(driver.calls, 2);
    assert_eq!(b, Log { time: t0 + 5, status: reading(888) });
}

#[test]
fn sentinel_is_stale_at_any_realistic_time() {
    let sentinel = Log::sentinel();
    let zero = Decimal { negative: false, whole: 0, frac: 0, frac_len: 1 };
    assert_eq!(sentinel.time, 0);
    assert_eq!(sentinel.status, UDCO2SStat { co2ppm: 0, humidity: zero, temperature: zero });
    for now in [4i64, 5, 100, 1_700_000_000, i64::MAX] {
        assert_eq!(cache_lookup(&sentinel, 4, now), None);
    }
}

#[test]
fn failed_acquisition_leaves_cell_untouched() {
    let before = Log { time: 1000, status: reading(415) };
    let mut cell = before;
    for err in [
        AcquisitionError::DeviceUnavailable,
        AcquisitionError::IoError,
        AcquisitionError::ParseFailure,
    ] {
        let out = apply_acquisition(&mut cell, Err(err), 2000);
        assert_eq!(out, Err(err));
        assert_eq!(cell, before);
    }
}

#[test]
fn successful_acquisition_overwrites_cell() {
    let mut cell = Log { time: 1000, status: reading(415) };
    let out = apply_acquisition(&mut cell, Ok(reading(500)), 2000);
    assert_eq!(cell, Log { time: 2000, status: reading(500) });
    assert_eq!(out, Ok(cell));
}

#[test]
fn error_messages_name_each_failure() {
    assert_eq!(
        AcquisitionError::DeviceUnavailable.message(),
        "could not open or configure the device"
    );
    assert_eq!(AcquisitionError::IoError.message(), "i/o error while talking to the device");
    assert_eq!(AcquisitionError::ParseFailure.message(), "could not read from device");
}

#[test]
fn wall_clock_is_past_the_epoch() {
    let now = now_time();
    assert!(now > 0);
    assert!(now_time() >= now);
}
