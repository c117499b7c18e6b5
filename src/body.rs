use vstd::prelude::*;
use vstd::utf8::*;

verus! {

/// The body of a function-invocation event: nothing, UTF-8 text or raw bytes.
#[derive(Debug)]
pub enum EventBody {
    Empty,
    Text(String),
    Binary(Vec<u8>),
}

/// The mathematical content of an `EventBody`.
pub enum EventBodyView {
    Empty,
    Text(Seq<char>),
    Binary(Seq<u8>),
}

impl View for EventBody {
    type V = EventBodyView;

    open spec fn view(&self) -> EventBodyView {
        match self {
            EventBody::Empty => EventBodyView::Empty,
            EventBody::Text(s) => EventBodyView::Text(s@),
            EventBody::Binary(b) => EventBodyView::Binary(b@),
        }
    }
}

/// The bytes that an event body stands for.
pub open spec fn body_bytes(b: EventBodyView) -> Seq<u8> {
    match b {
        EventBodyView::Empty => Seq::empty(),
        EventBodyView::Text(s) => encode_utf8(s),
        EventBodyView::Binary(bytes) => bytes,
    }
}

/// Turns an event body into the byte stream of an HTTP request: nothing for
/// an empty body, the UTF-8 encoding of a text, binary data as it is.
pub fn request_body_bytes(body: EventBody) -> (r: Vec<u8>)
    ensures
        r@ == body_bytes(body@),
{
    match body {
        EventBody::Empty => Vec::new(),
        EventBody::Text(t) => vstd::slice::slice_to_vec(t.as_str().as_bytes()),
        EventBody::Binary(b) => b,
    }
}

#[verifier::external_type_specification]
#[verifier::external_body]
pub struct ExFromUtf8Error(std::string::FromUtf8Error);

/// Relies on `String::from_utf8`: it succeeds exactly on valid UTF-8, and the
/// string then holds those bytes.
#[verifier::external_body]
pub(crate) fn utf8_string(bytes: Vec<u8>) -> (r: Result<String, std::string::FromUtf8Error>)
    ensures
        r is Ok <==> valid_utf8(bytes@),
        r matches Ok(s) ==> encode_utf8(s@) == bytes@,
{
    String::from_utf8(bytes)
}

} // verus!
