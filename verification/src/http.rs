//! The HTTP vocabulary of the service: status codes, headers and the three
//! shapes of reply that the endpoints give.

use vstd::prelude::*;
use vstd::string::StringExecFns;
use vstd::utf8::*;

verus! {

/// The status codes that the service answers with.
#[derive(Clone, Copy, Debug, PartialEq, Eq, Structural)]
pub enum Status {
    Success,
    NoContent,
    BadRequest,
    Unauthorized,
    Forbidden,
    NotFound,
    InternalServerError,
    ServiceUnavailable,
}

impl Status {
    /// The number of the status code.
    pub open spec fn code_spec(self) -> u16 {
        match self {
            Status::Success => 200,
            Status::NoContent => 204,
            Status::BadRequest => 400,
            Status::Unauthorized => 401,
            Status::Forbidden => 403,
            Status::NotFound => 404,
            Status::InternalServerError => 500,
            Status::ServiceUnavailable => 503,
        }
    }

    /// The number of the status code.
    #[verifier::when_used_as_spec(code_spec)]
    pub fn code(self) -> (r: u16)
        ensures
            r == self.code_spec(),
    {
        match self {
            Status::Success => 200,
            Status::NoContent => 204,
            Status::BadRequest => 400,
            Status::Unauthorized => 401,
            Status::Forbidden => 403,
            Status::NotFound => 404,
            Status::InternalServerError => 500,
            Status::ServiceUnavailable => 503,
        }
    }
}

/// A response header.
#[derive(Debug, PartialEq, Eq)]
pub struct Header {
    pub name: String,
    pub value: String,
}

impl View for Header {
    type V = (Seq<char>, Seq<char>);

    open spec fn view(&self) -> (Seq<char>, Seq<char>) {
        (self.name@, self.value@)
    }
}

/// The name and value of each header, in order.
pub open spec fn header_views(headers: Seq<Header>) -> Seq<(Seq<char>, Seq<char>)> {
    Seq::new(headers.len(), |i: int| headers[i]@)
}

/// A reply whose body is text.
#[derive(Debug, PartialEq, Eq)]
pub struct TextReply {
    pub status: Status,
    pub body: String,
}

/// A text reply as contracts see it.
pub struct TextReplyView {
    pub status: Status,
    pub body: Seq<char>,
}

impl View for TextReply {
    type V = TextReplyView;

    open spec fn view(&self) -> TextReplyView {
        TextReplyView { status: self.status, body: self.body@ }
    }
}

/// A reply that carries a file, or the message that says why it does not.
#[derive(Debug, PartialEq, Eq)]
pub struct FileReply {
    pub status: Status,
    pub headers: Vec<Header>,
    pub body: Vec<u8>,
}

/// A file reply as contracts see it.
pub struct FileReplyView {
    pub status: Status,
    pub headers: Seq<(Seq<char>, Seq<char>)>,
    pub body: Seq<u8>,
}

impl View for FileReply {
    type V = FileReplyView;

    open spec fn view(&self) -> FileReplyView {
        FileReplyView {
            status: self.status,
            headers: header_views(self.headers@),
            body: self.body@,
        }
    }
}

/// Joins two strings.
pub fn join(head: &str, tail: &str) -> (r: String)
    ensures
        r@ == head@ + tail@,
{
    String::from_str(head).concat(tail)
}

/// Whether a byte may stand in a header value: every byte but the control
/// characters below `0x20` other than the tab, and `0x7f`.
pub open spec fn is_value_byte(b: u8) -> bool {
    (b >= 0x20 && b != 0x7f) || b == 0x09
}

/// Whether every byte may stand in a header value.
pub open spec fn sendable_bytes(bytes: Seq<u8>) -> bool {
    forall|i: int| 0 <= i < bytes.len() ==> is_value_byte(#[trigger] bytes[i])
}

/// Whether a text can be sent as a header value: whether none of the bytes
/// of its UTF-8 encoding is a control character other than the tab.
pub open spec fn sendable(text: Seq<char>) -> bool {
    sendable_bytes(encode_utf8(text))
}

/// Whether `text` can be sent as a header value.
pub fn is_sendable(text: &str) -> (r: bool)
    ensures
        r == sendable(text@),
{
    let bytes = text.as_bytes();
    let mut i: usize = 0;
    while i < bytes.len()
        invariant
            i <= bytes@.len(),
            bytes@ == encode_utf8(text@),
            forall|k: int| 0 <= k < i ==> is_value_byte(#[trigger] bytes@[k]),
        decreases bytes@.len() - i,
    {
        let b = bytes[i];
        if !((b >= 0x20 && b != 0x7f) || b == 0x09) {
            return false;
        }
        i += 1;
    }
    true
}

/// The encoding of a text in two parts is the encoding of the first part
/// followed by that of the second.
pub proof fn lemma_encode_utf8_concat(a: Seq<char>, b: Seq<char>)
    ensures
        encode_utf8(a + b) == encode_utf8(a) + encode_utf8(b),
    decreases a.len(),
{
    if a.len() == 0 {
        assert(a + b =~= b);
        assert(encode_utf8(a) + encode_utf8(b) =~= encode_utf8(b));
    } else {
        lemma_encode_utf8_concat(a.drop_first(), b);
        assert((a + b).drop_first() =~= a.drop_first() + b);
        assert((a + b)[0] == a[0]);
        assert(encode_utf8(a + b) =~= encode_utf8(a) + encode_utf8(b));
    }
}

/// A text in two parts can be sent exactly when both parts can.
pub proof fn lemma_sendable_concat(a: Seq<char>, b: Seq<char>)
    ensures
        sendable(a + b) <==> sendable(a) && sendable(b),
{
    lemma_encode_utf8_concat(a, b);
    let x = encode_utf8(a);
    let y = encode_utf8(b);
    if sendable(a) && sendable(b) {
        assert forall|i: int| 0 <= i < (x + y).len() implies is_value_byte(
            #[trigger] (x + y)[i],
        ) by {
            if i < x.len() {
                assert((x + y)[i] == x[i]);
            } else {
                assert((x + y)[i] == y[i - x.len()]);
            }
        }
    }
    if sendable(a + b) {
        assert forall|i: int| 0 <= i < x.len() implies is_value_byte(#[trigger] x[i]) by {
            assert((x + y)[i] == x[i]);
        }
        assert forall|i: int| 0 <= i < y.len() implies is_value_byte(#[trigger] y[i]) by {
            assert((x + y)[i + x.len()] == y[i]);
        }
    }
}

/// A text of printable ASCII characters can be sent.
pub proof fn lemma_printable_is_sendable(text: Seq<char>)
    requires
        forall|i: int| 0 <= i < text.len() ==> ' ' <= #[trigger] text[i] <= '~',
    ensures
        sendable(text),
{
    assert(is_ascii_chars(text)) by {
        assert forall|i: int| 0 <= i < text.len() implies '\0' <= #[trigger] text[i]
            <= '\u{7f}' by {
            assert(' ' <= text[i] <= '~');
        }
    }
    is_ascii_chars_encode_utf8(text);
    let bytes = encode_utf8(text);
    assert forall|i: int| 0 <= i < bytes.len() implies is_value_byte(#[trigger] bytes[i]) by {
        assert(' ' <= text[i] <= '~');
        assert(text[i] as u8 == bytes[i]);
    }
}

} // verus!
