//! The request window and its classification.

use vstd::prelude::*;
use vstd::string::*;

use crate::response::{bytes_of, Status};

verus! {

/// The number of bytes of a request that are ever looked at.
pub const BUFFER_CAPACITY: usize = 512;

/// The one request line that is recognised, with its line ending.
pub open spec fn request_pattern() -> Seq<u8> {
    bytes_of("GET / HTTP/1.1\r\n"@)
}

/// The status that a request earns: success exactly when it begins with
/// the recognised request line.
pub open spec fn classification(request: Seq<u8>) -> Status {
    if request_pattern().is_prefix_of(request) {
        Status::Success
    } else {
        Status::NotFound
    }
}

/// The request pattern byte by byte: `GET / HTTP/1.1`, carriage return,
/// line feed. It is sixteen bytes long and holds no zero byte.
pub proof fn request_pattern_bytes()
    ensures
        request_pattern() == seq![
            71u8, 69u8, 84u8, 32u8, 47u8, 32u8, 72u8, 84u8,
            84u8, 80u8, 47u8, 49u8, 46u8, 49u8, 13u8, 10u8,
        ],
        request_pattern().len() == 16,
        forall|i: int| 0 <= i < 16 ==> request_pattern()[i] != 0,
{
    reveal_strlit("GET / HTTP/1.1\r\n");
    let line = "GET / HTTP/1.1\r\n"@;
    assert(vstd::utf8::is_ascii_chars(line));
    vstd::utf8::is_ascii_chars_encode_utf8(line);
    assert(request_pattern() =~= seq![
        71u8, 69u8, 84u8, 32u8, 47u8, 32u8, 72u8, 84u8,
        84u8, 80u8, 47u8, 49u8, 46u8, 49u8, 13u8, 10u8,
    ]);
}

/// What a read of `data` leaves in the request window: the first
/// `BUFFER_CAPACITY` bytes of `data`, then zeros up to the capacity.
pub open spec fn window(data: Seq<u8>) -> Seq<u8> {
    Seq::new(
        BUFFER_CAPACITY as nat,
        |i: int| if i < data.len() { data[i] } else { 0u8 },
    )
}

/// Zero fill behind the received bytes never changes the classification.
pub proof fn zero_fill_is_ignored(buffer: Seq<u8>, received: int)
    requires
        0 <= received <= buffer.len(),
        forall|i: int| received <= i < buffer.len() ==> buffer[i] == 0,
    ensures
        classification(buffer) == classification(buffer.take(received)),
{
    request_pattern_bytes();
    let pattern = request_pattern();
    let head = buffer.take(received);
    if pattern.is_prefix_of(buffer) {
        if received < 16 {
            assert(buffer.subrange(0, 16)[received] == pattern[received]);
        }
        assert(pattern =~= head.subrange(0, 16));
    }
    if pattern.is_prefix_of(head) {
        assert(head.subrange(0, 16) =~= buffer.subrange(0, 16));
    }
}

/// Cutting a request down to the window never changes the classification:
/// what lies behind the first `BUFFER_CAPACITY` bytes plays no part.
pub proof fn window_keeps_classification(data: Seq<u8>)
    ensures
        classification(window(data)) == classification(data),
{
    request_pattern_bytes();
    let pattern = request_pattern();
    let seen = window(data);
    if pattern.is_prefix_of(seen) {
        if data.len() < 16 {
            assert(seen.subrange(0, 16)[data.len() as int] == pattern[data.len() as int]);
        }
        assert forall|i: int| 0 <= i < 16 implies pattern[i] == data[i] by {
            assert(seen.subrange(0, 16)[i] == pattern[i]);
        }
        assert(pattern =~= data.subrange(0, 16));
    }
    if pattern.is_prefix_of(data) {
        assert forall|i: int| 0 <= i < 16 implies pattern[i] == seen[i] by {
            assert(data.subrange(0, 16)[i] == pattern[i]);
        }
        assert(pattern =~= seen.subrange(0, 16));
    }
}

/// The fixed window into which one read of a connection lands.
pub struct RequestBuffer {
    bytes: Vec<u8>,
    filled: usize,
}

impl View for RequestBuffer {
    type V = Seq<u8>;

    /// All the bytes of the window, zero fill included.
    closed spec fn view(&self) -> Seq<u8> {
        self.bytes@
    }
}

impl RequestBuffer {
    /// How many bytes of the window were received.
    pub closed spec fn filled(&self) -> nat {
        self.filled as nat
    }

    /// The window has its full capacity, and whatever was not received is
    /// zero.
    pub open spec fn well_formed(&self) -> bool {
        &&& self@.len() == BUFFER_CAPACITY
        &&& self.filled() <= BUFFER_CAPACITY
        &&& forall|i: int| self.filled() <= i < BUFFER_CAPACITY ==> self@[i] == 0
    }

    /// The bytes that were received, without the zero fill.
    pub open spec fn received(&self) -> Seq<u8> {
        self@.take(self.filled() as int)
    }

    /// Takes what one read delivered into a fresh window. Bytes of `data`
    /// past the capacity are dropped.
    pub fn capture(data: &[u8]) -> (buffer: RequestBuffer)
        ensures
            buffer.well_formed(),
            buffer@ == window(data@),
            buffer.filled() == if data@.len() < BUFFER_CAPACITY {
                data@.len()
            } else {
                BUFFER_CAPACITY as nat
            },
            buffer.received() == data@.take(buffer.filled() as int),
    {
        let filled: usize = if data.len() < BUFFER_CAPACITY {
            data.len()
        } else {
            BUFFER_CAPACITY
        };
        let mut bytes: Vec<u8> = Vec::new();
        let mut i: usize = 0;
        while i < BUFFER_CAPACITY
            invariant
                i <= BUFFER_CAPACITY,
                bytes@.len() == i,
                filled <= data@.len(),
                filled <= BUFFER_CAPACITY,
                filled == data@.len() || filled == BUFFER_CAPACITY,
                forall|j: int| 0 <= j < i ==> bytes@[j] == window(data@)[j],
            decreases BUFFER_CAPACITY - i,
        {
            let byte: u8 = if i < filled { data[i] } else { 0 };
            bytes.push(byte);
            i += 1;
        }
        let buffer = RequestBuffer { bytes, filled };
        assert(buffer@ =~= window(data@));
        assert(buffer.received() =~= data@.take(filled as int));
        buffer
    }

    /// The number of bytes that were received.
    pub fn received_len(&self) -> (n: usize)
        ensures
            n == self.filled(),
    {
        self.filled
    }

    /// The whole window as a slice.
    pub fn as_slice(&self) -> (bytes: &[u8])
        ensures
            bytes@ == self@,
    {
        self.bytes.as_slice()
    }

    /// Classifies the request in the window. The zero fill is compared
    /// along with the rest and makes no difference.
    pub fn classify(&self) -> (status: Status)
        requires
            self.well_formed(),
        ensures
            status == classification(self@),
            status == classification(self.received()),
    {
        proof {
            zero_fill_is_ignored(self@, self.filled() as int);
        }
        classify(self.bytes.as_slice())
    }
}

/// Whether `bytes` begins with `prefix`.
pub fn starts_with(bytes: &[u8], prefix: &[u8]) -> (found: bool)
    ensures
        found == prefix@.is_prefix_of(bytes@),
{
    if prefix.len() > bytes.len() {
        return false;
    }
    let mut i: usize = 0;
    while i < prefix.len()
        invariant
            i <= prefix.len() <= bytes.len(),
            forall|j: int| 0 <= j < i ==> prefix@[j] == bytes@[j],
        decreases prefix.len() - i,
    {
        if prefix[i] != bytes[i] {
            return false;
        }
        i += 1;
    }
    assert(prefix@ =~= bytes@.subrange(0, prefix@.len() as int));
    true
}

/// Classifies a request by its leading bytes.
pub fn classify(request: &[u8]) -> (status: Status)
    ensures
        status == classification(request@),
{
    if starts_with(request, "GET / HTTP/1.1\r\n".as_bytes()) {
        Status::Success
    } else {
        Status::NotFound
    }
}

} // verus!
