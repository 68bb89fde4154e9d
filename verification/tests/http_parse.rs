use cocktail_bot_hal::server::http::{
    head_is_examinable, parse_request_head, response_head, scan_head_byte, status_reason, HeadScan, HttpError,
    HttpRequest, MAX_HEADER_BYTES,
};

#[test]
fn parses_request_line_headers_and_content_length() {
    let head = b"POST /v1/control/power HTTP/1.1\r\nHost: robot\r\nContent-Length: 12\r\nAuthorization:  Bearer changeme \r\n\r\n";
    let h = parse_request_head(head).unwrap();
    assert_eq!(h.method, "POST");
    assert_eq!(h.path, "/v1/control/power");
    assert_eq!(h.content_length, 12);
    assert_eq!(h.headers.len(), 3);
    assert_eq!(h.headers[2], ("Authorization".to_string(), "Bearer changeme".to_string()));
    let req = HttpRequest::from_head(h, b"{\"on\":true}\n".to_vec());
    assert_eq!(req.header("AUTHORIZATION"), Some("Bearer changeme"));
    assert_eq!(req.header("content-length"), Some("12"));
    assert_eq!(req.header("Cookie"), None);
    assert_eq!(req.body.len(), 12);
}

#[test]
fn content_length_rules() {
    // case-insensitive label, last one wins, unparsable means 0
    let h = parse_request_head(b"GET / HTTP/1.1\r\ncontent-LENGTH: 5\r\nContent-Length: +7\r\n\r\n").unwrap();
    assert_eq!(h.content_length, 7);
    let h = parse_request_head(b"GET / HTTP/1.1\r\nContent-Length: 5\r\nContent-Length: x\r\n\r\n").unwrap();
    assert_eq!(h.content_length, 0);
    // a line of 16 bytes is too short to count
    let h = parse_request_head(b"GET / HTTP/1.1\r\nContent-Length:9\r\n\r\n").unwrap();
    assert_eq!(h.content_length, 0);
    let h = parse_request_head(b"GET / HTTP/1.1\r\nContent-Length:99\r\n\r\n").unwrap();
    assert_eq!(h.content_length, 99);
    let h = parse_request_head(b"GET / HTTP/1.1\r\n\r\n").unwrap();
    assert_eq!(h.content_length, 0);
    // overflow does not parse
    let h = parse_request_head(b"GET / HTTP/1.1\r\nContent-Length: 99999999999999999999999\r\n\r\n").unwrap();
    assert_eq!(h.content_length, 0);
}

#[test]
fn parse_errors() {
    assert_eq!(parse_request_head(b"GET\r\n\r\n").err(), Some(HttpError::MalformedRequest));
    assert_eq!(parse_request_head(b"\r\n\r\n").err(), Some(HttpError::MalformedRequest));
    assert_eq!(parse_request_head(b"").err(), Some(HttpError::MalformedRequest));
    assert_eq!(parse_request_head(b"GET /\xff HTTP/1.1\r\n\r\n").err(), Some(HttpError::InvalidUtf8));
}

#[test]
fn unicode_whitespace_separates_tokens() {
    let h = parse_request_head("GET\u{3000}/x\tHTTP/1.1\r\n\r\n".as_bytes()).unwrap();
    assert_eq!(h.method, "GET");
    assert_eq!(h.path, "/x");
}

#[test]
fn head_scan_stops_at_blank_line_or_limit() {
    let mut buf = Vec::new();
    let mut last = HeadScan::Incomplete;
    for b in b"GET / HTTP/1.1\r\n\r\n" {
        last = scan_head_byte(&mut buf, *b);
    }
    assert_eq!(last, HeadScan::Complete);
    let mut buf = Vec::new();
    let mut states = Vec::new();
    for _ in 0..=MAX_HEADER_BYTES {
        states.push(scan_head_byte(&mut buf, b'a'));
    }
    assert_eq!(states[MAX_HEADER_BYTES - 1], HeadScan::Incomplete);
    assert_eq!(states[MAX_HEADER_BYTES], HeadScan::TooLarge);
}

#[test]
fn response_heads() {
    assert_eq!(
        response_head(202, 23),
        "HTTP/1.1 202 Accepted\r\nContent-Type: application/json\r\nContent-Length: 23\r\nConnection: close\r\n\r\n"
    );
    assert!(response_head(409, 0).starts_with("HTTP/1.1 409 OK\r\n"));
    assert_eq!(status_reason(500), "Internal Server Error");
    assert_eq!(status_reason(405), "Method Not Allowed");
    assert_eq!(status_reason(201), "OK");
}

#[test]
fn header_lines_must_split_at_byte_15() {
    // "é" takes bytes 14 and 15 of this header line: byte 15 is inside it.
    assert!(!head_is_examinable("GET / HTTP/1.1\r\naaaaaaaaaaaaaa\u{e9}: yes\r\n\r\n".as_bytes()));
    // "é" takes bytes 13 and 14: the first 15 bytes are whole characters.
    let ok = "GET / HTTP/1.1\r\naaaaaaaaaaaaa\u{e9}: yes\r\n\r\n";
    assert!(head_is_examinable(ok.as_bytes()));
    assert_eq!(parse_request_head(ok.as_bytes()).unwrap().content_length, 0);
    // short lines and the request line are not tested
    assert!(head_is_examinable("GET /\u{e9}\u{e9}\u{e9}\u{e9}\u{e9}\u{e9}\u{e9}\u{e9}\u{e9} HTTP/1.1\r\n\u{e9}\u{e9}\u{e9}\u{e9}\u{e9}\u{e9}\u{e9}\u{e9}\r\n\r\n".as_bytes()));
    // heads that are not UTF-8 are refused by the parser itself
    assert!(head_is_examinable(b"GET /\xff HTTP/1.1\r\n\r\n"));
    assert!(head_is_examinable(b"GET / HTTP/1.1\r\nContent-Length: 3\r\n\r\n"));
}
