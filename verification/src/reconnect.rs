use vstd::prelude::*;

verus! {

/// Pause before connecting again after listening ended, in seconds.
pub const RECONNECT_PAUSE_SECS: u64 = 2;

/// The delay before the next attempt to connect, in seconds, after
/// `failures` failed attempts in a row.
pub open spec fn spec_retry_delay(failures: u8) -> u64 {
    if failures <= 4 {
        2
    } else if failures <= 9 {
        5
    } else if failures <= 20 {
        10
    } else {
        60
    }
}

/// The delay before the next attempt to connect, in seconds: 2 for the first
/// five failures in a row, then 5 up to the tenth, then 10 up to the
/// twenty-first, then a minute.
pub fn retry_delay_secs(failures: u8) -> (secs: u64)
    ensures
        secs == spec_retry_delay(failures),
{
    match failures {
        0..=4 => 2,
        5..=9 => 5,
        10..=20 => 10,
        _ => 60,
    }
}

/// The count of failed attempts after one more failure; it stays at 255 once
/// there.
pub fn count_failure(failures: u8) -> (next: u8)
    ensures
        next == if failures == u8::MAX { u8::MAX } else { (failures + 1) as u8 },
{
    failures.saturating_add(1)
}

/// The waits between attempts: 2 seconds after up to five failures in a row,
/// 5 after up to ten, 10 after up to twenty-one, a minute after more.
pub proof fn law_retry_schedule(failures: u8)
    ensures
        failures < 5 ==> spec_retry_delay(failures) == 2,
        5 <= failures < 10 ==> spec_retry_delay(failures) == 5,
        10 <= failures < 21 ==> spec_retry_delay(failures) == 10,
        21 <= failures ==> spec_retry_delay(failures) == 60,
{
}

/// The longer the run of failures, the longer the wait.
pub proof fn law_retry_delay_grows(a: u8, b: u8)
    requires
        a <= b,
    ensures
        spec_retry_delay(a) <= spec_retry_delay(b),
        2 <= spec_retry_delay(a) <= 60,
{
}


/// The count of failed attempts in a row after an attempt to connect, and the
/// delay before the next attempt when this one failed.
pub open spec fn spec_after_attempt(failures: u8, connected: bool) -> (u8, Option<u64>) {
    if connected {
        (0, None)
    } else {
        (
            if failures == u8::MAX { u8::MAX } else { (failures + 1) as u8 },
            Some(spec_retry_delay(failures)),
        )
    }
}

/// Decides what follows an attempt to connect: a success resets the count of
/// failures and needs no delay; a failure waits the delay for the failures so
/// far, then counts one more.
pub fn after_attempt(failures: u8, connected: bool) -> (res: (u8, Option<u64>))
    ensures
        res == spec_after_attempt(failures, connected),
{
    if connected {
        (0, None)
    } else {
        (count_failure(failures), Some(retry_delay_secs(failures)))
    }
}

} // verus!
