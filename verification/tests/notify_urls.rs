use hc_runner::{PingResult, decimal_of_u8, end_url, notify_base, ping_warning, start_url};

#[test]
fn join_puts_exactly_one_slash_between_segments() {
    // The base URL may come with or without a trailing slash; the result
    // is the same either way, with single separators throughout.
    assert_eq!(notify_base("http://h/p", "s"), "http://h/p/s/");
    assert_eq!(notify_base("http://h/p/", "s"), "http://h/p/s/");
    assert_eq!(notify_base("http://example.com/", "winner"), "http://example.com/winner/");
}

#[test]
fn start_url_names_the_slug_and_asks_for_creation() {
    assert_eq!(
        start_url("http://example.com/", "winner"),
        "http://example.com/winner/start?create=1"
    );
    assert_eq!(
        start_url("http://example.com", "winner"),
        "http://example.com/winner/start?create=1"
    );
}

#[test]
fn end_url_names_the_slug_and_the_exit_code() {
    assert_eq!(end_url("http://example.com/", "failer", 7), "http://example.com/failer/7");
    assert_eq!(end_url("http://example.com/", "winner", 0), "http://example.com/winner/0");
}

#[test]
fn decimal_rendering() {
    assert_eq!(decimal_of_u8(0), "0");
    assert_eq!(decimal_of_u8(7), "7");
    assert_eq!(decimal_of_u8(10), "10");
    assert_eq!(decimal_of_u8(42), "42");
    assert_eq!(decimal_of_u8(100), "100");
    assert_eq!(decimal_of_u8(255), "255");
}

#[test]
fn unreachable_ping_warns() {
    let w = ping_warning(&PingResult::Unreachable);
    assert_eq!(w, Some("failed to update status".to_string()));
}

#[test]
fn rejected_ping_warns_with_the_response_body() {
    let w = ping_warning(&PingResult::Response { status: 500, body: "oops".to_string() });
    assert_eq!(w, Some("failed to update status: oops".to_string()));
    let w = ping_warning(&PingResult::Response { status: 199, body: String::new() });
    assert_eq!(w, Some("failed to update status: ".to_string()));
    let w = ping_warning(&PingResult::Response { status: 300, body: "moved".to_string() });
    assert_eq!(w, Some("failed to update status: moved".to_string()));
}

#[test]
fn accepted_ping_passes_in_silence() {
    let w = ping_warning(&PingResult::Response { status: 200, body: "OK".to_string() });
    assert_eq!(w, None);
    let w = ping_warning(&PingResult::Response { status: 299, body: String::new() });
    assert_eq!(w, None);
}
