use crate::error::FetchError;
use crate::fetch::create_client;
use crate::fetch::download;
use crate::fetch::is_success_status;
use crate::header::header_safe;
use crate::path::default_path;
use crate::path::resolve_path;
use vstd::prelude::*;

verus! {

/// Relies on chrono::Utc::now and chrono::Datelike::year. `Utc::now` builds
/// the time from the seconds elapsed since the Unix epoch (it does not return
/// on a clock set before it), so the year of its answer is at least 1970.
#[verifier::external_body]
fn current_year_utc() -> (y: i32)
    ensures
        1970 <= y,
{
    chrono::Datelike::year(&chrono::Utc::now())
}

/// The year taken from the clock's answer: the year itself whenever it is
/// representable as an unsigned value, a configuration error otherwise.
pub fn year_from_clock(now_year: i32) -> (r: Result<u32, FetchError>)
    ensures
        now_year >= 0 ==> r == Ok::<u32, FetchError>(now_year as u32),
        now_year < 0 ==> r == Err::<u32, FetchError>(FetchError::Config),
{
    if now_year >= 0 {
        Ok(now_year as u32)
    } else {
        Err(FetchError::Config)
    }
}

/// Accepts the session credential read from the environment, or fails with a
/// configuration error when the environment held none.
pub fn acquire_credential(credential: Option<String>) -> (r: Result<String, FetchError>)
    ensures
        credential matches Some(c) ==> r == Ok::<String, FetchError>(c),
        credential is None ==> r == Err::<String, FetchError>(FetchError::Config),
{
    match credential {
        Some(c) => Ok(c),
        None => Err(FetchError::Config),
    }
}

/// Resolves the year: an explicit argument is used as given; otherwise the
/// current UTC year is read from the clock, which always yields a year. The
/// clock is not consulted when an argument is given.
pub fn resolve_year(year_arg: Option<u32>) -> (r: Result<u32, FetchError>)
    ensures
        year_arg matches Some(y) ==> r == Ok::<u32, FetchError>(y),
        year_arg is None ==> r is Ok,
{
    match year_arg {
        Some(y) => Ok(y),
        None => year_from_clock(current_year_utc()),
    }
}

/// One run's work short of any filesystem write: check the credential, build
/// the client, download the day's input, and resolve the destination path.
/// A missing credential fails before anything else is attempted; an unsafe
/// credential fails before any request is sent; a success carries the
/// resolved path and the downloaded bytes.
pub fn fetch_input(credential: Option<String>, day: u32, year: u32, output: Option<String>) -> (r:
    Result<(String, Vec<u8>), FetchError>)
    ensures
        credential is None ==> r == Err::<(String, Vec<u8>), FetchError>(FetchError::Config),
        (credential matches Some(c) && !header_safe(c@)) ==> (r matches Err(e) && e
            is ClientBuild),
        r matches Ok(pb) ==> {
            &&& (output matches Some(o) ==> pb.0@ == o@)
            &&& (output is None ==> pb.0@ == default_path(year as int, day as int))
        },
        r matches Err(e) ==> match e {
            FetchError::Config => credential is None,
            FetchError::ClientBuild(_) => true,
            FetchError::Transport(_) => true,
            FetchError::Status(s) => !is_success_status(s as int),
            FetchError::Filesystem => false,
        },
{
    let session = match acquire_credential(credential) {
        Ok(s) => s,
        Err(e) => {
            return Err(e);
        },
    };
    let client = match create_client(session.as_str()) {
        Ok(c) => c,
        Err(e) => {
            return Err(e);
        },
    };
    let body = match download(&client, day, year) {
        Ok(b) => b,
        Err(e) => {
            return Err(e);
        },
    };
    let path = resolve_path(output, year, day);
    Ok((path, body))
}

} // verus!
