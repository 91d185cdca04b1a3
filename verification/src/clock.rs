use vstd::prelude::*;

use crate::error::{AppError, ErrorView};

verus! {

#[verifier::external_type_specification]
#[verifier::external_body]
pub struct ExSystemTime(std::time::SystemTime);

#[verifier::external_type_specification]
#[verifier::external_body]
pub struct ExSystemTimeError(std::time::SystemTimeError);

/// Calls `std::time::SystemTime::now`. The reading depends on the machine's clock;
/// nothing is stated of it.
#[verifier::external_body]
fn system_time_now() -> std::time::SystemTime {
    std::time::SystemTime::now()
}

/// Calls `SystemTime::duration_since` with `UNIX_EPOCH`: the time elapsed since the epoch,
/// or an error where the reading lies before it. Nothing more is stated.
#[verifier::external_body]
fn duration_since_epoch(t: &std::time::SystemTime) -> Result<
    std::time::Duration,
    std::time::SystemTimeError,
> {
    t.duration_since(std::time::UNIX_EPOCH)
}

/// Calls `Duration::as_secs`: the whole seconds of a duration. The duration is opaque
/// here, so nothing is stated.
#[verifier::external_body]
fn duration_whole_secs(d: &std::time::Duration) -> u64 {
    d.as_secs()
}

/// The time in whole seconds since the Unix epoch, from a reading of the clock: `secs`
/// is the whole seconds elapsed since the epoch, or `None` where the clock reads a time
/// before it, which fails with an internal error.
pub fn now_unix_from(secs: Option<u64>) -> (res: Result<usize, AppError>)
    ensures
        match secs {
            Some(s) => res == Ok::<usize, AppError>(s as usize),
            None => res matches Err(e) && e@ == ErrorView::Internal(
                "system clock before unix epoch"@,
            ),
        },
{
    match secs {
        Some(s) => Ok(s as usize),
        None => Err(AppError::internal("system clock before unix epoch")),
    }
}

/// The current time in whole seconds since the Unix epoch.
///
/// Where the system clock reads a time before the epoch, the request fails with an
/// internal error instead.
pub fn now_unix() -> (res: Result<usize, AppError>)
    ensures
        res matches Err(e) ==> e@ == ErrorView::Internal("system clock before unix epoch"@),
{
    let now = system_time_now();
    let secs = match duration_since_epoch(&now) {
        Ok(d) => Some(duration_whole_secs(&d)),
        Err(_) => None,
    };
    now_unix_from(secs)
}

} // verus!
