use hello_http::request::{classify, starts_with, RequestBuffer, BUFFER_CAPACITY};
use hello_http::response::Status;

const ROOT_LINE: &[u8] = b"GET / HTTP/1.1\r\n";

#[test]
fn root_line_alone_is_success() {
    assert_eq!(ROOT_LINE.len(), 16);
    assert_eq!(classify(ROOT_LINE), Status::Success);
}

#[test]
fn root_line_with_headers_is_success() {
    assert_eq!(classify(b"GET / HTTP/1.1\r\nHost: x\r\n\r\n"), Status::Success);
}

#[test]
fn empty_request_is_not_found() {
    assert_eq!(classify(b""), Status::NotFound);
}

#[test]
fn short_request_is_not_found() {
    assert_eq!(classify(b"GET / HTTP/1.1\r"), Status::NotFound);
    assert_eq!(classify(b"GET / HTTP/1.1"), Status::NotFound);
    assert_eq!(classify(b"G"), Status::NotFound);
}

#[test]
fn other_method_is_not_found() {
    assert_eq!(classify(b"POST / HTTP/1.1\r\n\r\n"), Status::NotFound);
    assert_eq!(classify(b"HEAD / HTTP/1.1\r\n\r\n"), Status::NotFound);
}

#[test]
fn other_path_is_not_found() {
    assert_eq!(classify(b"GET /index.html HTTP/1.1\r\n\r\n"), Status::NotFound);
}

#[test]
fn other_version_is_not_found() {
    assert_eq!(classify(b"GET / HTTP/1.0\r\n\r\n"), Status::NotFound);
    assert_eq!(classify(b"GET / HTTP/2.0\r\n\r\n"), Status::NotFound);
}

#[test]
fn match_is_case_sensitive_and_whitespace_exact() {
    assert_eq!(classify(b"get / http/1.1\r\n"), Status::NotFound);
    assert_eq!(classify(b"GET  / HTTP/1.1\r\n"), Status::NotFound);
    assert_eq!(classify(b" GET / HTTP/1.1\r\n"), Status::NotFound);
    assert_eq!(classify(b"GET / HTTP/1.1\n"), Status::NotFound);
    assert_eq!(classify(b"GET / HTTP/1.1\n\r"), Status::NotFound);
}

#[test]
fn last_byte_of_the_line_counts() {
    let mut request = ROOT_LINE.to_vec();
    request[15] = b'\r';
    assert_eq!(classify(&request), Status::NotFound);
    request[15] = b'\n';
    assert_eq!(classify(&request), Status::Success);
}

#[test]
fn full_window_with_root_line_is_success() {
    let mut request = vec![b'x'; BUFFER_CAPACITY];
    request[..16].copy_from_slice(ROOT_LINE);
    assert_eq!(request.len(), 512);
    assert_eq!(classify(&request), Status::Success);
    let buffer = RequestBuffer::capture(&request);
    assert_eq!(buffer.received_len(), 512);
    assert_eq!(buffer.as_slice(), &request[..]);
    assert_eq!(buffer.classify(), Status::Success);
}

#[test]
fn full_window_without_root_line_is_not_found() {
    let mut request = vec![b'x'; BUFFER_CAPACITY];
    request[496..].copy_from_slice(ROOT_LINE);
    assert_eq!(classify(&request), Status::NotFound);
    assert_eq!(RequestBuffer::capture(&request).classify(), Status::NotFound);
}

#[test]
fn capture_zero_fills_behind_what_was_received() {
    let buffer = RequestBuffer::capture(b"GET / HTTP/1.1\r\n");
    assert_eq!(buffer.received_len(), 16);
    let window = buffer.as_slice();
    assert_eq!(window.len(), 512);
    assert_eq!(&window[..16], ROOT_LINE);
    assert!(window[16..].iter().all(|byte| *byte == 0));
    assert_eq!(buffer.classify(), Status::Success);
}

#[test]
fn capture_of_nothing_is_all_zero() {
    let buffer = RequestBuffer::capture(b"");
    assert_eq!(buffer.received_len(), 0);
    assert_eq!(buffer.as_slice(), &[0u8; 512][..]);
    assert_eq!(buffer.classify(), Status::NotFound);
}

#[test]
fn capture_drops_what_lies_past_the_capacity() {
    let mut request = ROOT_LINE.to_vec();
    request.resize(700, b'y');
    let buffer = RequestBuffer::capture(&request);
    assert_eq!(buffer.received_len(), 512);
    assert_eq!(buffer.as_slice(), &request[..512]);
    assert_eq!(buffer.classify(), Status::Success);
    assert_eq!(buffer.classify(), classify(&request));
}

#[test]
fn zero_fill_never_completes_a_short_line() {
    let buffer = RequestBuffer::capture(b"GET / HTTP/1.1\r");
    assert_eq!(buffer.received_len(), 15);
    assert_eq!(buffer.as_slice()[15], 0);
    assert_eq!(buffer.classify(), Status::NotFound);
}

#[test]
fn window_and_request_classify_alike() {
    let requests: [&[u8]; 6] = [
        b"",
        b"GET",
        b"GET / HTTP/1.1\r\n",
        b"GET / HTTP/1.1\r\nAccept: */*\r\n\r\n",
        b"PUT / HTTP/1.1\r\n\r\n",
        b"\0\0\0\0\0\0\0\0\0\0\0\0\0\0\0\0",
    ];
    for request in requests {
        assert_eq!(RequestBuffer::capture(request).classify(), classify(request));
    }
}

#[test]
fn starts_with_compares_the_leading_bytes() {
    assert!(starts_with(b"abcdef", b"abc"));
    assert!(starts_with(b"abc", b"abc"));
    assert!(starts_with(b"abc", b""));
    assert!(starts_with(b"", b""));
    assert!(!starts_with(b"ab", b"abc"));
    assert!(!starts_with(b"abd", b"abc"));
    assert!(!starts_with(b"xbc", b"abc"));
    assert!(!starts_with(b"", b"a"));
}
