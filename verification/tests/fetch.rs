use advent_input::error::FetchError;
use advent_input::fetch::build_input_url;
use advent_input::fetch::create_client;
use advent_input::fetch::interpret_response;
use advent_input::header::check_header_safe;
use advent_input::header::make_cookie;

#[test]
fn url_for_year_and_day() {
    let u = build_input_url(2023, 5);
    assert_eq!(u, "https://adventofcode.com/2023/day/5/input");
}

#[test]
fn url_for_two_digit_day() {
    let u = build_input_url(2015, 25);
    assert_eq!(u, "https://adventofcode.com/2015/day/25/input");
}

#[test]
fn header_safe_plain_credential() {
    assert!(check_header_safe("abcDEF0123456789"));
}

#[test]
fn header_safe_empty() {
    assert!(check_header_safe(""));
}

#[test]
fn header_safe_tab_allowed() {
    assert!(check_header_safe("a\tb"));
}

#[test]
fn header_unsafe_newline() {
    assert!(!check_header_safe("abc\ndef"));
}

#[test]
fn header_unsafe_carriage_return() {
    assert!(!check_header_safe("abc\rdef"));
}

#[test]
fn header_unsafe_delete_character() {
    assert!(!check_header_safe("abc\u{7f}def"));
}

#[test]
fn header_safe_beyond_ascii() {
    assert!(check_header_safe("caf\u{e9}"));
}

#[test]
fn cookie_carries_credential() {
    assert_eq!(make_cookie("abc123"), "session=abc123");
}

#[test]
fn client_built_from_safe_credential() {
    assert!(matches!(create_client("0123abcd"), Ok(_)));
}

#[test]
fn client_refused_for_newline_credential() {
    assert!(matches!(
        create_client("bad\ncredential"),
        Err(FetchError::ClientBuild(_))
    ));
}

#[test]
fn success_response_returns_body_exactly() {
    let body = vec![b'1', b',', b'2', b',', b'3'];
    let r = interpret_response(200, body.clone());
    assert_eq!(r, Ok(body));
}

#[test]
fn not_found_response_is_a_status_error() {
    let r = interpret_response(404, Vec::new());
    assert_eq!(r, Err(FetchError::Status(404)));
}

#[test]
fn not_found_response_surfaces_no_bytes() {
    let r = interpret_response(404, vec![b'x', b'y']);
    assert!(r.is_err());
}

#[test]
fn status_class_edges() {
    assert!(interpret_response(200, Vec::new()).is_ok());
    assert!(interpret_response(204, Vec::new()).is_ok());
    assert!(interpret_response(299, Vec::new()).is_ok());
    assert_eq!(
        interpret_response(199, Vec::new()),
        Err(FetchError::Status(199))
    );
    assert_eq!(
        interpret_response(300, Vec::new()),
        Err(FetchError::Status(300))
    );
    assert_eq!(
        interpret_response(500, Vec::new()),
        Err(FetchError::Status(500))
    );
}

#[test]
fn client_refusal_carries_a_cause() {
    match create_client("bad\ncredential") {
        Err(FetchError::ClientBuild(cause)) => {
            assert_eq!(
                cause,
                "the credential holds a character not allowed in a header value"
            );
        }
        _ => panic!("expected a client-build error"),
    }
}
