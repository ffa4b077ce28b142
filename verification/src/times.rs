//! Modification times as Unix seconds.
use vstd::prelude::*;

verus! {

#[verifier::external_type_specification]
#[verifier::external_body]
pub struct ExSystemTime(std::time::SystemTime);

#[verifier::external_type_specification]
#[verifier::external_body]
pub struct ExSystemTimeError(std::time::SystemTimeError);

#[verifier::external_type_specification]
#[verifier::external_body]
pub struct ExIoError(std::io::Error);

/// What `SystemTime::duration_since(UNIX_EPOCH)` gives: the time passed
/// since the Unix epoch, or `None` for a time before it.
pub uninterp spec fn since_unix_epoch(t: std::time::SystemTime) -> Option<core::time::Duration>;

/// What `Duration::as_secs` gives: the whole seconds of a duration.
pub uninterp spec fn whole_seconds(d: core::time::Duration) -> u64;

/// Calls `SystemTime::duration_since` with `UNIX_EPOCH`. Trusted: the
/// result is a function of the time alone; it is an error exactly for
/// times before the epoch.
#[verifier::external_body]
fn duration_since_epoch(t: &std::time::SystemTime) -> (r: Result<
    core::time::Duration,
    std::time::SystemTimeError,
>)
    ensures
        match r {
            Ok(d) => since_unix_epoch(*t) == Some(d),
            Err(_) => since_unix_epoch(*t) is None,
        },
{
    t.duration_since(std::time::UNIX_EPOCH)
}

/// Calls `Duration::as_secs`. Trusted: the result is a function of the
/// duration alone.
#[verifier::external_body]
fn duration_secs(d: &core::time::Duration) -> (r: u64)
    ensures
        r == whole_seconds(*d),
{
    d.as_secs()
}

/// Whole seconds since the Unix epoch of a time the file system reported,
/// if it reported one and it is not before the epoch.
pub fn unix_secs(t: Result<std::time::SystemTime, std::io::Error>) -> (r: Option<u64>)
    ensures
        r == match t {
            Ok(x) => match since_unix_epoch(x) {
                Some(d) => Some(whole_seconds(d)),
                None => None,
            },
            Err(_) => None,
        },
{
    match t {
        Err(_) => None,
        Ok(x) => match duration_since_epoch(&x) {
            Ok(d) => Some(duration_secs(&d)),
            Err(_) => None,
        },
    }
}

} // verus!
