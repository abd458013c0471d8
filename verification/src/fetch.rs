use crate::digits::dec_digits;
use crate::digits::u32_to_decimal;
use crate::error::FetchError;
use crate::header::check_header_safe;
use crate::header::header_safe;
use crate::header::lemma_cookie_header_safe;
use crate::header::make_cookie;
use vstd::prelude::*;

verus! {

#[verifier::external_type_specification]
#[verifier::external_body]
pub struct ExClient(reqwest::blocking::Client);

#[verifier::external_type_specification]
#[verifier::external_body]
pub struct ExResponse(reqwest::blocking::Response);

/// The URL of one day's input on the challenge site.
pub open spec fn input_url(year: int, day: int) -> Seq<char> {
    "https://adventofcode.com/"@ + dec_digits(year) + "/day/"@ + dec_digits(day) + "/input"@
}

/// Builds the URL of one day's input.
pub fn build_input_url(year: u32, day: u32) -> (u: String)
    ensures
        u@ == input_url(year as int, day as int),
{
    let mut s = String::from_str("https://adventofcode.com/");
    let y = u32_to_decimal(year);
    s.append(y.as_str());
    s.append("/day/");
    let d = u32_to_decimal(day);
    s.append(d.as_str());
    s.append("/input");
    proof {
        assert(s@ =~= input_url(year as int, day as int));
    }
    s
}

/// A status code of the HTTP success class.
pub open spec fn is_success_status(status: int) -> bool {
    200 <= status < 300
}

/// Decides whether a status code is of the success class.
fn status_class_success(status: u16) -> (r: bool)
    ensures
        r == is_success_status(status as int),
{
    200 <= status && status < 300
}

/// Relies on reqwest::header::HeaderValue::from_str, which accepts a value
/// exactly when every byte is 9 or lies in 32..=255 less 127, and on
/// reqwest::blocking::ClientBuilder::build, whose only failure is in setting
/// up the transport backend or loading the resolver configuration.
#[verifier::external_body]
fn build_client_with_cookie(cookie: &str) -> (r: Result<reqwest::blocking::Client, FetchError>)
    requires
        header_safe(cookie@),
    ensures
        r matches Err(e) ==> e is ClientBuild,
{
    let mut headers = reqwest::header::HeaderMap::new();
    let value = match reqwest::header::HeaderValue::from_str(cookie) {
        Ok(v) => v,
        Err(e) => {
            return Err(FetchError::ClientBuild(format!("{}", e)));
        },
    };
    headers.insert(reqwest::header::COOKIE, value);
    match reqwest::blocking::Client::builder().default_headers(headers).build() {
        Ok(c) => Ok(c),
        Err(e) => Err(FetchError::ClientBuild(format!("{}", e))),
    }
}

/// Relies on reqwest::blocking::Client::get and RequestBuilder::send: one GET
/// request carrying the client's default headers; on a connection, resolution
/// or protocol failure `send` returns an error.
#[verifier::external_body]
fn send_get(client: &reqwest::blocking::Client, url: &str) -> (r: Result<
    reqwest::blocking::Response,
    FetchError,
>)
    ensures
        r matches Err(e) ==> e is Transport,
{
    match client.get(url).send() {
        Ok(resp) => Ok(resp),
        Err(e) => Err(FetchError::Transport(format!("{}", e))),
    }
}

/// Relies on reqwest::blocking::Response::status and http::StatusCode::as_u16:
/// a status code always lies in 100..=999.
#[verifier::external_body]
fn response_status(response: &reqwest::blocking::Response) -> (s: u16)
    ensures
        100 <= s <= 999,
{
    response.status().as_u16()
}

/// Relies on reqwest::blocking::Response::bytes: the full response body as
/// bytes; on a transport failure while reading it returns an error.
#[verifier::external_body]
fn response_bytes(response: reqwest::blocking::Response) -> (r: Result<Vec<u8>, FetchError>)
    ensures
        r matches Err(e) ==> e is Transport,
{
    match response.bytes() {
        Ok(b) => Ok(b.to_vec()),
        Err(e) => Err(FetchError::Transport(format!("{}", e))),
    }
}

/// Builds an HTTP client whose every request carries the session cookie.
/// Construction fails with a client-build error whenever the credential is
/// not header-safe, and only with that error otherwise (the transport may
/// still refuse to initialise).
pub fn create_client(session: &str) -> (r: Result<reqwest::blocking::Client, FetchError>)
    ensures
        !header_safe(session@) ==> r is Err,
        r matches Err(e) ==> e is ClientBuild,
        r is Ok ==> header_safe(session@),
{
    if !check_header_safe(session) {
        return Err(
            FetchError::ClientBuild(
                String::from_str("the credential holds a character not allowed in a header value"),
            ),
        );
    }
    let cookie = make_cookie(session);
    proof {
        lemma_cookie_header_safe(session@);
    }
    build_client_with_cookie(cookie.as_str())
}

/// What the fetcher returns once the response's status and body are known:
/// the body, exactly and unmodified, on a success status; the status code as
/// an error otherwise, with no bytes surfaced.
pub fn interpret_response(status: u16, body: Vec<u8>) -> (r: Result<Vec<u8>, FetchError>)
    ensures
        is_success_status(status as int) ==> r == Ok::<Vec<u8>, FetchError>(body),
        !is_success_status(status as int) ==> r == Err::<Vec<u8>, FetchError>(
            FetchError::Status(status),
        ),
{
    if status_class_success(status) {
        Ok(body)
    } else {
        Err(FetchError::Status(status))
    }
}

/// Issues the one GET request for the given day's input and interprets the
/// response. Every failure is a transport error or the non-success status
/// code; nothing else is ever returned as an error.
pub fn download(client: &reqwest::blocking::Client, day: u32, year: u32) -> (r: Result<
    Vec<u8>,
    FetchError,
>)
    ensures
        r matches Err(e) ==> match e {
            FetchError::Transport(_) => true,
            FetchError::Status(s) => !is_success_status(s as int),
            _ => false,
        },
{
    let url = build_input_url(year, day);
    let response = match send_get(client, url.as_str()) {
        Ok(resp) => resp,
        Err(e) => {
            return Err(e);
        },
    };
    let status = response_status(&response);
    if status_class_success(status) {
        let body = match response_bytes(response) {
            Ok(b) => b,
            Err(e) => {
                return Err(e);
            },
        };
        interpret_response(status, body)
    } else {
        interpret_response(status, Vec::new())
    }
}

} // verus!
