//! The life of one connection, as a state machine.
//!
//! The handler never touches a socket or a file. It names the outside work
//! that is due next as an [`Action`]; the caller performs it and reports
//! the outcome as an [`Event`]. Each connection walks the chain once, from
//! accepted to closed, and any failure on the way is fatal.
//!
//! A stage stands for a point at which the handler waits for the outside.
//! Reading and classifying are one step, because nothing outside happens
//! between them; so are the end of the write and the close.

use vstd::prelude::*;
use vstd::string::*;

use crate::request::{
    classification, request_pattern, window, window_keeps_classification, RequestBuffer,
    BUFFER_CAPACITY,
};
use crate::response::{bytes_of, compose, response_bytes, status_line_text, Status};

verus! {

/// Where a connection stands.
#[derive(Clone, Copy, Debug, PartialEq, Eq, Structural)]
pub enum Stage {
    /// The connection is open and its request has not been read.
    Accepted,
    /// The request was read and classified; the page is not loaded yet.
    Classified(Status),
    /// The page was loaded and the response handed out to be written.
    Loaded,
    /// The response was written, or the connection was given up.
    Closed,
}

/// The outcome of the outside work that the last action asked for.
#[derive(Clone, Debug, PartialEq, Eq)]
pub enum Event {
    /// One read of the connection delivered these bytes.
    Received(Vec<u8>),
    /// The page was read from disk as text.
    Loaded(String),
    /// The response was written and flushed.
    Sent,
    /// The outside work failed.
    Failed,
}

/// The outside work that is due next.
#[derive(Clone, Debug, PartialEq, Eq)]
pub enum Action {
    /// Read once from the connection, at most this many bytes.
    Read(usize),
    /// Read the whole file at this path as text.
    Load(&'static str),
    /// Write these bytes to the connection, then flush.
    Send(Vec<u8>),
    /// Let the connection close.
    Close,
    /// Give up: the failure is fatal to the whole process.
    Abort,
}

/// An event by its content.
pub enum EventView {
    Received(Seq<u8>),
    Loaded(Seq<char>),
    Sent,
    Failed,
}

/// An action by its content.
pub enum ActionView {
    Read(nat),
    Load(Seq<char>),
    Send(Seq<u8>),
    Close,
    Abort,
}

impl View for Event {
    type V = EventView;

    open spec fn view(&self) -> EventView {
        match *self {
            Event::Received(data) => EventView::Received(data@),
            Event::Loaded(contents) => EventView::Loaded(contents@),
            Event::Sent => EventView::Sent,
            Event::Failed => EventView::Failed,
        }
    }
}

impl View for Action {
    type V = ActionView;

    open spec fn view(&self) -> ActionView {
        match *self {
            Action::Read(limit) => ActionView::Read(limit as nat),
            Action::Load(path) => ActionView::Load(path@),
            Action::Send(bytes) => ActionView::Send(bytes@),
            Action::Close => ActionView::Close,
            Action::Abort => ActionView::Abort,
        }
    }
}

/// Whether `event` is an outcome that `stage` waits for.
pub open spec fn awaited(stage: Stage, event: EventView) -> bool {
    match (stage, event) {
        (Stage::Accepted, EventView::Received(_)) => true,
        (Stage::Classified(_), EventView::Loaded(_)) => true,
        (Stage::Loaded, EventView::Sent) => true,
        _ => false,
    }
}

/// The stage that follows `stage` on `event`. An event that the stage does
/// not wait for, a failure among them, closes the connection.
pub open spec fn next_stage(stage: Stage, event: EventView) -> Stage {
    match (stage, event) {
        (Stage::Accepted, EventView::Received(data)) => Stage::Classified(
            classification(window(data)),
        ),
        (Stage::Classified(_), EventView::Loaded(_)) => Stage::Loaded,
        _ => Stage::Closed,
    }
}

/// The action that `stage` answers `event` with. An event that the stage
/// does not wait for, a failure among them, is answered with `Abort`.
pub open spec fn next_action(stage: Stage, event: EventView) -> ActionView {
    match (stage, event) {
        (Stage::Accepted, EventView::Received(data)) => ActionView::Load(
            classification(window(data)).page(),
        ),
        (Stage::Classified(status), EventView::Loaded(contents)) => ActionView::Send(
            response_bytes(status, bytes_of(contents)),
        ),
        (Stage::Loaded, EventView::Sent) => ActionView::Close,
        _ => ActionView::Abort,
    }
}

/// Opens the chain for a connection that was just accepted: the first
/// action is one read of at most `BUFFER_CAPACITY` bytes.
pub fn accept() -> (first: (Stage, Action))
    ensures
        first.0 == Stage::Accepted,
        first.1@ == ActionView::Read(BUFFER_CAPACITY as nat),
{
    (Stage::Accepted, Action::Read(BUFFER_CAPACITY))
}

/// Takes the outcome of the last action and says where the connection
/// stands now and what is due next.
pub fn advance(stage: Stage, event: Event) -> (next: (Stage, Action))
    ensures
        next.0 == next_stage(stage, event@),
        next.1@ == next_action(stage, event@),
{
    match (stage, event) {
        (Stage::Accepted, Event::Received(data)) => {
            let status = RequestBuffer::capture(data.as_slice()).classify();
            (Stage::Classified(status), Action::Load(status.page_path()))
        },
        (Stage::Classified(status), Event::Loaded(contents)) => {
            (Stage::Loaded, Action::Send(compose(status, contents.as_str())))
        },
        (Stage::Loaded, Event::Sent) => (Stage::Closed, Action::Close),
        _ => (Stage::Closed, Action::Abort),
    }
}

/// The pages on disk: the text of each file by its path.
pub type Pages = Map<Seq<char>, Seq<char>>;

/// The response that a client is owed for `request` while the disk holds
/// `pages`.
pub open spec fn reply(request: Seq<u8>, pages: Pages) -> Seq<u8> {
    let status = classification(request);
    response_bytes(status, bytes_of(pages[status.page()]))
}

/// A connection whose read delivers `request`, and whose page is read from
/// `pages`, is sent exactly `reply(request, pages)` and then closed.
pub proof fn handler_sends_reply(request: Seq<u8>, pages: Pages)
    ensures
        ({
            let read = EventView::Received(request);
            let classified = next_stage(Stage::Accepted, read);
            let status = classification(request);
            let loaded = EventView::Loaded(pages[status.page()]);
            &&& classified == Stage::Classified(status)
            &&& next_action(Stage::Accepted, read) == ActionView::Load(status.page())
            &&& next_stage(classified, loaded) == Stage::Loaded
            &&& next_action(classified, loaded) == ActionView::Send(reply(request, pages))
            &&& next_stage(Stage::Loaded, EventView::Sent) == Stage::Closed
            &&& next_action(Stage::Loaded, EventView::Sent) == ActionView::Close
        }),
{
    window_keeps_classification(request);
}

/// A request that begins with the recognised request line is answered
/// with `200 OK` and the success page, whatever follows the line.
pub proof fn root_request_is_served(request: Seq<u8>, pages: Pages)
    requires
        request_pattern().is_prefix_of(request),
    ensures
        classification(request) == Status::Success,
        reply(request, pages) == bytes_of("HTTP/1.1 200 OK\r\n\r\n"@) + bytes_of(
            pages["html/hello.html"@],
        ),
{
    status_line_text();
}

/// Every other request, the empty one and one shorter than the request
/// line among them, is answered with `404 NOT FOUND` and the not-found page.
pub proof fn other_request_is_not_found(request: Seq<u8>, pages: Pages)
    requires
        !request_pattern().is_prefix_of(request),
    ensures
        classification(request) == Status::NotFound,
        reply(request, pages) == bytes_of("HTTP/1.1 404 NOT FOUND\r\n\r\n"@) + bytes_of(
            pages["html/404.html"@],
        ),
{
    status_line_text();
}

/// Every reply is `HTTP/1.1 `, one of the two status texts, one blank line
/// and the page, in this order and with no header between them.
pub proof fn reply_layout(request: Seq<u8>, pages: Pages)
    ensures
        ({
            let status = classification(request);
            &&& status == Status::Success || status == Status::NotFound
            &&& reply(request, pages) == bytes_of("HTTP/1.1 "@) + bytes_of(status.text())
                + bytes_of("\r\n\r\n"@) + bytes_of(pages[status.page()])
        }),
{
}

/// The same request on an unchanged disk gets the same reply, byte for
/// byte, however often it is sent.
pub proof fn same_request_same_reply(first: Seq<u8>, second: Seq<u8>, pages: Pages)
    requires
        first == second,
    ensures
        reply(first, pages) == reply(second, pages),
{
}

/// A window that is full to its capacity and begins with the recognised
/// request line is a success: the bytes behind the line play no part.
pub proof fn full_window_is_served(buffer: Seq<u8>)
    requires
        buffer.len() == BUFFER_CAPACITY,
        request_pattern().is_prefix_of(buffer),
    ensures
        classification(buffer) == Status::Success,
        forall|longer: Seq<u8>|
            buffer.is_prefix_of(longer) ==> #[trigger] classification(longer) == Status::Success,
{
    assert forall|longer: Seq<u8>| buffer.is_prefix_of(longer) implies #[trigger] classification(
        longer,
    ) == Status::Success by {
        let pattern = request_pattern();
        assert(pattern =~= buffer.subrange(0, pattern.len() as int));
        assert(buffer =~= longer.subrange(0, buffer.len() as int));
        assert(pattern =~= longer.subrange(0, pattern.len() as int));
    }
}

/// A failure is fatal at every stage: the answer is `Abort` and the
/// connection is closed.
pub proof fn failure_is_fatal(stage: Stage)
    ensures
        next_stage(stage, EventView::Failed) == Stage::Closed,
        next_action(stage, EventView::Failed) == ActionView::Abort,
{
}

/// An event leads to `Abort` exactly when the stage was not waiting for
/// it; then the connection is closed.
pub proof fn abort_means_unawaited(stage: Stage, event: EventView)
    ensures
        next_action(stage, event) == ActionView::Abort <==> !awaited(stage, event),
        !awaited(stage, event) ==> next_stage(stage, event) == Stage::Closed,
{
}

} // verus!
