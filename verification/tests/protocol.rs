use xeonvpn::classify::{dispatch_stream, echo_response, Dispatch, SessionMode};
use xeonvpn::doh::{doh_error_response, doh_response, doh_url};

fn chars(s: &str) -> Vec<char> {
    s.chars().collect()
}

fn command_of(data: &[u8]) -> Option<String> {
    match dispatch_stream(SessionMode::Sniffing, &data.to_vec()) {
        Dispatch::Command(rest) => Some(rest.iter().collect()),
        _ => None,
    }
}

#[test]
fn echo_returns_payload_verbatim() {
    let data: Vec<u8> = b"hello from client".to_vec();
    assert!(matches!(
        dispatch_stream(SessionMode::Sniffing, &data),
        Dispatch::Echo
    ));
    assert_eq!(echo_response(&data), data);
}

#[test]
fn echo_handles_arbitrary_bytes() {
    let data: Vec<u8> = vec![0x00, 0xFF, 0xFE, 0x80, 0x41];
    assert!(matches!(
        dispatch_stream(SessionMode::Sniffing, &data),
        Dispatch::Echo
    ));
    assert_eq!(echo_response(&data), data);
}

#[test]
fn non_utf8_payload_is_echo_despite_prefix() {
    let mut data: Vec<u8> = b"DOH ".to_vec();
    data.push(0xFF);
    assert!(matches!(
        dispatch_stream(SessionMode::Sniffing, &data),
        Dispatch::Echo
    ));
}

#[test]
fn relay_mode_takes_every_stream() {
    let data: Vec<u8> = b"DOH example.com".to_vec();
    assert!(matches!(
        dispatch_stream(SessionMode::RelayOnly, &data),
        Dispatch::Relay
    ));
}

#[test]
fn command_is_recognized() {
    assert_eq!(command_of(b"DOH example.com").as_deref(), Some("example.com"));
}

#[test]
fn command_payload_is_trimmed_before_the_prefix_check() {
    assert_eq!(
        command_of(b"  DOH  example.com \n").as_deref(),
        Some(" example.com")
    );
}

#[test]
fn command_prefix_is_case_sensitive() {
    assert_eq!(command_of(b"doh example.com"), None);
}

#[test]
fn bare_prefix_word_is_echo() {
    // "DOH " trims to "DOH", which no longer carries the prefix.
    assert_eq!(command_of(b"DOH "), None);
    assert_eq!(command_of(b"DOH"), None);
}

#[test]
fn url_for_plain_domain() {
    assert_eq!(
        doh_url(&chars("example.com")).as_str(),
        "https://cloudflare-dns.com/dns-query?name=example.com&type=A"
    );
}

#[test]
fn url_trims_its_argument() {
    assert_eq!(
        doh_url(&chars("  example.com \t")).as_str(),
        "https://cloudflare-dns.com/dns-query?name=example.com&type=A"
    );
}

#[test]
fn url_percent_encodes_reserved_bytes() {
    assert_eq!(
        doh_url(&chars("ex ample.com/?&")).as_str(),
        "https://cloudflare-dns.com/dns-query?name=ex%20ample.com%2F%3F%26&type=A"
    );
}

#[test]
fn url_percent_encodes_multibyte_characters() {
    assert_eq!(
        doh_url(&chars("b\u{FC}cher.de")).as_str(),
        "https://cloudflare-dns.com/dns-query?name=b%C3%BCcher.de&type=A"
    );
}

#[test]
fn response_wraps_status_and_body() {
    let body = "{\"Status\":0,\"Answer\":[]}";
    assert_eq!(
        doh_response(200, body),
        b"{\"status\":200,\"body\":{\"Status\":0,\"Answer\":[]}}".to_vec()
    );
}

#[test]
fn response_renders_status_digits() {
    assert_eq!(doh_response(0, "x"), b"{\"status\":0,\"body\":x}".to_vec());
    assert_eq!(
        doh_response(65535, ""),
        b"{\"status\":65535,\"body\":}".to_vec()
    );
}

#[test]
fn response_body_is_not_escaped() {
    // The body is inserted verbatim, so a quoted body yields exactly these
    // bytes even though they are not valid JSON.
    assert_eq!(
        doh_response(404, "\"not found\""),
        b"{\"status\":404,\"body\":\"not found\"}".to_vec()
    );
}

#[test]
fn error_reply_is_bare_text() {
    assert_eq!(
        doh_error_response("connection refused"),
        b"connection refused".to_vec()
    );
}

#[test]
fn scenario_lookup_of_example_com() {
    // A client that sends "DOH example.com" causes one lookup for
    // example.com, and a 200 reply is wrapped with its status.
    let domain = command_of(b"DOH example.com").unwrap();
    let url = doh_url(&domain.chars().collect());
    assert_eq!(
        url.as_str(),
        "https://cloudflare-dns.com/dns-query?name=example.com&type=A"
    );
    let reply = doh_response(200, "{\"Status\":0}");
    assert_eq!(reply, b"{\"status\":200,\"body\":{\"Status\":0}}".to_vec());
}
