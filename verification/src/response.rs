//! Status of a response and the bytes that are written back.

use vstd::prelude::*;
use vstd::string::*;

verus! {

/// The two outcomes of classifying a request. There is no third.
#[derive(Clone, Copy, Debug, PartialEq, Eq, Structural)]
pub enum Status {
    /// The request asked for the root page.
    Success,
    /// Anything else.
    NotFound,
}

impl Status {
    /// The status text that follows the protocol version in the status line.
    pub open spec fn text(self) -> Seq<char> {
        match self {
            Status::Success => "200 OK"@,
            Status::NotFound => "404 NOT FOUND"@,
        }
    }

    /// The relative path of the page that is sent as the body.
    pub open spec fn page(self) -> Seq<char> {
        match self {
            Status::Success => "html/hello.html"@,
            Status::NotFound => "html/404.html"@,
        }
    }

    /// The status text: `200 OK` or `404 NOT FOUND`.
    pub fn status_text(self) -> (text: &'static str)
        ensures
            text@ == self.text(),
    {
        match self {
            Status::Success => "200 OK",
            Status::NotFound => "404 NOT FOUND",
        }
    }

    /// The path of the file whose contents become the body.
    pub fn page_path(self) -> (path: &'static str)
        ensures
            path@ == self.page(),
    {
        match self {
            Status::Success => "html/hello.html",
            Status::NotFound => "html/404.html",
        }
    }
}

/// The UTF-8 bytes of a piece of text.
pub open spec fn bytes_of(text: Seq<char>) -> Seq<u8> {
    vstd::utf8::encode_utf8(text)
}

/// The head of every response: protocol version, status text, and the empty
/// line that ends the (absent) headers.
pub open spec fn status_line(status: Status) -> Seq<u8> {
    bytes_of("HTTP/1.1 "@) + bytes_of(status.text()) + bytes_of("\r\n\r\n"@)
}

/// A complete response: the status line, then the body, nothing in between.
pub open spec fn response_bytes(status: Status, body: Seq<u8>) -> Seq<u8> {
    status_line(status) + body
}

/// The two status lines as they go over the wire: the version, the status
/// text and the blank line, with nothing between them.
pub proof fn status_line_text()
    ensures
        status_line(Status::Success) == bytes_of("HTTP/1.1 200 OK\r\n\r\n"@),
        status_line(Status::NotFound) == bytes_of("HTTP/1.1 404 NOT FOUND\r\n\r\n"@),
{
    reveal_strlit("HTTP/1.1 ");
    reveal_strlit("\r\n\r\n");
    reveal_strlit("200 OK");
    reveal_strlit("404 NOT FOUND");
    reveal_strlit("HTTP/1.1 200 OK\r\n\r\n");
    reveal_strlit("HTTP/1.1 404 NOT FOUND\r\n\r\n");
    vstd::utf8::is_ascii_chars_encode_utf8("HTTP/1.1 "@);
    vstd::utf8::is_ascii_chars_encode_utf8("\r\n\r\n"@);
    vstd::utf8::is_ascii_chars_encode_utf8("200 OK"@);
    vstd::utf8::is_ascii_chars_encode_utf8("404 NOT FOUND"@);
    vstd::utf8::is_ascii_chars_encode_utf8("HTTP/1.1 200 OK\r\n\r\n"@);
    vstd::utf8::is_ascii_chars_encode_utf8("HTTP/1.1 404 NOT FOUND\r\n\r\n"@);
    assert(status_line(Status::Success) =~= bytes_of("HTTP/1.1 200 OK\r\n\r\n"@));
    assert(status_line(Status::NotFound) =~= bytes_of("HTTP/1.1 404 NOT FOUND\r\n\r\n"@));
}

/// A response is its status line and its body and nothing else: the body
/// starts right behind the blank line and runs to the end.
pub proof fn response_layout(status: Status, body: Seq<u8>)
    ensures
        status_line(status).is_prefix_of(response_bytes(status, body)),
        response_bytes(status, body).skip(status_line(status).len() as int) == body,
        response_bytes(status, body).len() == status_line(status).len() + body.len(),
        status_line(status).len() == status.text().len() + 13,
{
    let line = status_line(status);
    let whole = response_bytes(status, body);
    assert(whole.subrange(0, line.len() as int) =~= line);
    assert(whole.skip(line.len() as int) =~= body);
    reveal_strlit("HTTP/1.1 ");
    reveal_strlit("\r\n\r\n");
    reveal_strlit("200 OK");
    reveal_strlit("404 NOT FOUND");
    vstd::utf8::is_ascii_chars_encode_utf8("HTTP/1.1 "@);
    vstd::utf8::is_ascii_chars_encode_utf8("\r\n\r\n"@);
    vstd::utf8::is_ascii_chars_encode_utf8(status.text());
}

/// Builds the response for `status` with `contents` as its body.
pub fn compose(status: Status, contents: &str) -> (response: Vec<u8>)
    ensures
        response@ == response_bytes(status, bytes_of(contents@)),
{
    let mut response: Vec<u8> = Vec::new();
    response.extend_from_slice("HTTP/1.1 ".as_bytes());
    response.extend_from_slice(status.status_text().as_bytes());
    response.extend_from_slice("\r\n\r\n".as_bytes());
    response.extend_from_slice(contents.as_bytes());
    assert(response@ =~= response_bytes(status, bytes_of(contents@)));
    response
}

} // verus!
