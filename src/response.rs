use vstd::prelude::*;
use vstd::utf8::*;

use crate::body::{utf8_string, EventBody, EventBodyView};
use crate::error::TranslateError;
use crate::media::{is_text_safe, is_text_safe_spec, mime_parse_of, parse_mime};

verus! {

/// A header byte that a header value may hold as text: visible ASCII or a tab.
pub open spec fn is_visible_ascii(b: u8) -> bool {
    (32 <= b && b < 127) || b == 9
}

/// The text of a header value, where it has one.
pub open spec fn header_text(b: Seq<u8>) -> Option<Seq<char>> {
    if (forall|i: int| 0 <= i < b.len() ==> is_visible_ascii(#[trigger] b[i])) && valid_utf8(b) {
        Some(decode_utf8(b))
    } else {
        None
    }
}

/// The event body that a buffered response body becomes, given its
/// `Content-Type` header value and whether a `Content-Encoding` header is
/// present.
pub open spec fn response_body_spec(
    content_type: Option<Seq<u8>>,
    encoded: bool,
    bytes: Seq<u8>,
) -> Result<EventBodyView, TranslateError> {
    if encoded || content_type is None {
        Ok(EventBodyView::Binary(bytes))
    } else {
        match header_text(content_type->Some_0) {
            None => Err(TranslateError::HeaderNotText),
            Some(t) => match mime_parse_of(t) {
                None => Err(TranslateError::InvalidMediaType),
                Some(parsed) => if is_text_safe_spec(parsed.0, parsed.1) {
                    if valid_utf8(bytes) {
                        Ok(EventBodyView::Text(decode_utf8(bytes)))
                    } else {
                        Err(TranslateError::InvalidUtf8)
                    }
                } else {
                    Ok(EventBodyView::Binary(bytes))
                },
            },
        }
    }
}

/// The bytes of a header value that may be absent.
pub open spec fn header_view(h: Option<Vec<u8>>) -> Option<Seq<u8>> {
    match h {
        Some(v) => Some(v@),
        None => None,
    }
}

/// The mathematical content of a translation outcome.
pub open spec fn body_result_view(r: Result<EventBody, TranslateError>) -> Result<EventBodyView, TranslateError> {
    match r {
        Ok(b) => Ok(b@),
        Err(e) => Err(e),
    }
}

fn all_visible_ascii(b: &Vec<u8>) -> (r: bool)
    ensures
        r == forall|i: int| 0 <= i < b@.len() ==> is_visible_ascii(#[trigger] b@[i]),
{
    let mut i: usize = 0;
    while i < b.len()
        invariant
            i <= b@.len(),
            forall|j: int| 0 <= j < i ==> is_visible_ascii(#[trigger] b@[j]),
        decreases b@.len() - i,
    {
        let c = b[i];
        if !((32 <= c && c < 127) || c == 9) {
            return false;
        }
        i += 1;
    }
    true
}

/// Classifies a fully buffered response body as text or binary.
///
/// With a `Content-Encoding` header, or without a `Content-Type` header, the
/// bytes go on as binary. Otherwise the `Content-Type` value must be visible
/// ASCII and parse as a media type; for a text-safe type the bytes must be
/// valid UTF-8 and go on as text, for any other type they go on as binary.
pub fn response_event_body(
    content_type: Option<Vec<u8>>,
    encoded: bool,
    bytes: Vec<u8>,
) -> (r: Result<EventBody, TranslateError>)
    ensures
        body_result_view(r) == response_body_spec(header_view(content_type), encoded, bytes@),
{
    if encoded {
        return Ok(EventBody::Binary(bytes));
    }
    let ct = match content_type {
        None => {
            return Ok(EventBody::Binary(bytes));
        },
        Some(ct) => ct,
    };
    let ghost ct_view = ct@;
    if !all_visible_ascii(&ct) {
        return Err(TranslateError::HeaderNotText);
    }
    let text = match utf8_string(ct) {
        Ok(t) => t,
        Err(_) => {
            return Err(TranslateError::HeaderNotText);
        },
    };
    proof {
        encode_utf8_decode_utf8(text@);
        assert(header_text(ct_view) == Some(text@));
    }
    let m = match parse_mime(text.as_str()) {
        Ok(m) => m,
        Err(_) => {
            return Err(TranslateError::InvalidMediaType);
        },
    };
    if is_text_safe(&m) {
        match utf8_string(bytes) {
            Ok(s) => {
                proof {
                    encode_utf8_decode_utf8(s@);
                }
                Ok(EventBody::Text(s))
            },
            Err(_) => Err(TranslateError::InvalidUtf8),
        }
    } else {
        Ok(EventBody::Binary(bytes))
    }
}

/// A JSON response whose body is valid UTF-8 goes on as text, and the text
/// is the UTF-8 decoding of the body.
pub proof fn lemma_json_body_is_text(content_type: Seq<u8>, bytes: Seq<u8>)
    requires
        header_text(content_type) matches Some(t) && mime_parse_of(t) matches Some(parsed)
            && parsed.0 == "application/json"@,
        valid_utf8(bytes),
    ensures
        response_body_spec(Some(content_type), false, bytes) == Ok::<EventBodyView, TranslateError>(
            EventBodyView::Text(decode_utf8(bytes)),
        ),
        encode_utf8(decode_utf8(bytes)) == bytes,
{
    decode_utf8_encode_utf8(bytes);
}

/// A response with a `Content-Encoding` header goes on as the same bytes,
/// whatever its `Content-Type`.
pub proof fn lemma_encoded_body_is_binary(content_type: Option<Seq<u8>>, bytes: Seq<u8>)
    ensures
        response_body_spec(content_type, true, bytes) == Ok::<EventBodyView, TranslateError>(
            EventBodyView::Binary(bytes),
        ),
{
}

/// A response without a `Content-Type` header goes on as the same bytes.
pub proof fn lemma_untyped_body_is_binary(encoded: bool, bytes: Seq<u8>)
    ensures
        response_body_spec(None, encoded, bytes) == Ok::<EventBodyView, TranslateError>(
            EventBodyView::Binary(bytes),
        ),
{
}

/// A response declared as text whose body is not valid UTF-8 fails, and is
/// never passed on as binary.
pub proof fn lemma_invalid_text_body_fails(content_type: Seq<u8>, bytes: Seq<u8>)
    requires
        header_text(content_type) matches Some(t) && mime_parse_of(t) matches Some(parsed)
            && is_text_safe_spec(parsed.0, parsed.1),
        !valid_utf8(bytes),
    ensures
        response_body_spec(Some(content_type), false, bytes) == Err::<EventBodyView, TranslateError>(
            TranslateError::InvalidUtf8,
        ),
{
}

} // verus!
