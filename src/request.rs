use vstd::prelude::*;
use vstd::string::*;
use vstd::utf8::*;

use crate::body::{body_bytes, request_body_bytes, EventBody, EventBodyView};
use crate::error::TranslateError;

verus! {

/// Whether a text parses as a URI.
pub uninterp spec fn uri_parses(s: Seq<char>) -> bool;

#[verifier::external_type_specification]
#[verifier::external_body]
pub struct ExUri(warp::http::Uri);

#[verifier::external_type_specification]
#[verifier::external_body]
pub struct ExInvalidUri(warp::http::uri::InvalidUri);

/// Relies on `http::Uri::from_str`: whether a text parses depends on the text alone.
#[verifier::external_body]
pub(crate) fn parse_uri(s: &str) -> (r: Result<warp::http::Uri, warp::http::uri::InvalidUri>)
    ensures
        r is Ok <==> uri_parses(s@),
{
    s.parse::<warp::http::Uri>()
}

/// Bytes that form encoding leaves as they are.
pub open spec fn form_unchanged(b: u8) -> bool {
    ||| b == 42
    ||| b == 45
    ||| b == 46
    ||| (48 <= b && b <= 57)
    ||| (65 <= b && b <= 90)
    ||| b == 95
    ||| (97 <= b && b <= 122)
}

/// The upper-case hexadecimal digit of a value below sixteen, as an ASCII byte.
pub open spec fn hex_upper(n: u8) -> u8 {
    if n < 10 {
        (48 + n) as u8
    } else {
        (55 + n) as u8
    }
}

/// The form encoding of one byte: kept, `+` for a space, else `%XX`.
pub open spec fn form_byte(b: u8) -> Seq<u8> {
    if form_unchanged(b) {
        seq![b]
    } else if b == 32 {
        seq![43u8]
    } else {
        seq![37u8, hex_upper(b / 16), hex_upper(b % 16)]
    }
}

/// The form encoding of a byte sequence, byte by byte.
pub open spec fn form_encoded(bytes: Seq<u8>) -> Seq<u8>
    decreases bytes.len(),
{
    if bytes.len() == 0 {
        Seq::empty()
    } else {
        form_byte(bytes[0]) + form_encoded(bytes.drop_first())
    }
}

/// Relies on `url::form_urlencoded::byte_serialize`, which encodes the UTF-8
/// bytes of its input one by one as `form_byte` says.
#[verifier::external_body]
fn form_component(s: &str) -> (r: String)
    ensures
        encode_utf8(r@) == form_encoded(encode_utf8(s@)),
{
    url::form_urlencoded::byte_serialize(s.as_bytes()).collect()
}

/// One `key=value` pair of a query string, both sides form-encoded.
pub open spec fn pair_bytes(p: (String, String)) -> Seq<u8> {
    form_encoded(encode_utf8(p.0@)) + encode_utf8("="@) + form_encoded(encode_utf8(p.1@))
}

/// The query string of the given pairs, in their order, joined by `&`.
pub open spec fn query_bytes(pairs: Seq<(String, String)>) -> Seq<u8>
    decreases pairs.len(),
{
    if pairs.len() == 0 {
        Seq::empty()
    } else if pairs.len() == 1 {
        pair_bytes(pairs[0])
    } else {
        query_bytes(pairs.drop_last()) + encode_utf8("&"@) + pair_bytes(pairs.last())
    }
}

/// The request target synthesized for an event: a loopback authority, the
/// event's path, and a query string where there are query parameters.
pub open spec fn target_bytes(path: Seq<char>, pairs: Seq<(String, String)>) -> Seq<u8> {
    encode_utf8("http://127.0.0.1"@) + encode_utf8(path) + if pairs.len() == 0 {
        Seq::empty()
    } else {
        encode_utf8("?"@) + query_bytes(pairs)
    }
}

/// The request target as text.
pub open spec fn request_target(path: Seq<char>, pairs: Seq<(String, String)>) -> Seq<char> {
    decode_utf8(target_bytes(path, pairs))
}

proof fn lemma_encode_utf8_concat(a: Seq<char>, b: Seq<char>)
    ensures
        encode_utf8(a + b) == encode_utf8(a) + encode_utf8(b),
    decreases a.len(),
{
    if a.len() == 0 {
        assert(a + b =~= b);
        assert(encode_utf8(a) =~= Seq::<u8>::empty());
        assert(encode_utf8(a) + encode_utf8(b) =~= encode_utf8(b));
    } else {
        assert((a + b).drop_first() =~= a.drop_first() + b);
        assert((a + b)[0] == a[0]);
        lemma_encode_utf8_concat(a.drop_first(), b);
        assert(encode_utf8(a + b) =~= encode_utf8(a) + encode_utf8(b));
    }
}

fn append_text(out: &mut String, s: &str)
    ensures
        final(out)@ == old(out)@ + s@,
        encode_utf8(final(out)@) == encode_utf8(old(out)@) + encode_utf8(s@),
{
    proof {
        lemma_encode_utf8_concat(out@, s@);
    }
    out.append(s);
}

/// Builds the query string of the given pairs: each key and value
/// form-encoded, `=` between them, `&` between pairs, in the given order.
pub fn query_string(pairs: &Vec<(String, String)>) -> (r: String)
    ensures
        encode_utf8(r@) == query_bytes(pairs@),
{
    let mut out = String::new();
    let mut i: usize = 0;
    while i < pairs.len()
        invariant
            i <= pairs@.len(),
            encode_utf8(out@) == query_bytes(pairs@.take(i as int)),
        decreases pairs@.len() - i,
    {
        let ghost before = encode_utf8(out@);
        if i > 0 {
            append_text(&mut out, "&");
        }
        let key = form_component(pairs[i].0.as_str());
        append_text(&mut out, key.as_str());
        append_text(&mut out, "=");
        let value = form_component(pairs[i].1.as_str());
        append_text(&mut out, value.as_str());
        proof {
            let next = pairs@.take(i + 1);
            assert(next.drop_last() =~= pairs@.take(i as int));
            assert(next.last() == pairs@[i as int]);
            if i == 0 {
                assert(before =~= Seq::<u8>::empty());
                assert(encode_utf8(out@) =~= pair_bytes(pairs@[0]));
            } else {
                assert(encode_utf8(out@) =~= before + encode_utf8("&"@) + pair_bytes(pairs@[i as int]));
            }
        }
        i += 1;
    }
    assert(pairs@.take(pairs@.len() as int) =~= pairs@);
    out
}

/// Builds the request target of an event: `http://127.0.0.1`, the path, and
/// `?` with the query string where there are query parameters.
pub fn synthesized_target(path: &str, pairs: &Vec<(String, String)>) -> (r: String)
    ensures
        encode_utf8(r@) == target_bytes(path@, pairs@),
        r@ == request_target(path@, pairs@),
{
    let mut out = String::new();
    assert(encode_utf8(out@) =~= Seq::<u8>::empty());
    append_text(&mut out, "http://127.0.0.1");
    append_text(&mut out, path);
    if pairs.len() > 0 {
        append_text(&mut out, "?");
        let q = query_string(pairs);
        append_text(&mut out, q.as_str());
    }
    proof {
        encode_utf8_decode_utf8(out@);
    }
    out
}

/// A request for the wrapped HTTP service: its parsed target, the target's
/// text, and the body bytes.
pub struct CanonicalRequest {
    pub uri: warp::http::Uri,
    pub target: String,
    pub body: Vec<u8>,
}

/// What a translated request is: its target text and its body bytes.
pub open spec fn request_result_view(r: Result<CanonicalRequest, TranslateError>) -> Result<
    (Seq<char>, Seq<u8>),
    TranslateError,
> {
    match r {
        Ok(c) => Ok((c.target@, c.body@)),
        Err(e) => Err(e),
    }
}

/// The request that an event with this path, these query parameters and this
/// body becomes, or the error where its target is not a URI.
pub open spec fn request_spec(
    path: Seq<char>,
    pairs: Seq<(String, String)>,
    body: EventBodyView,
) -> Result<(Seq<char>, Seq<u8>), TranslateError> {
    if uri_parses(request_target(path, pairs)) {
        Ok((request_target(path, pairs), body_bytes(body)))
    } else {
        Err(TranslateError::InvalidUri)
    }
}

/// Translates an invocation event (its path, its query parameters with the
/// first value of each key, and its body) into a request for the service.
pub fn translate_request(path: &str, pairs: &Vec<(String, String)>, body: EventBody) -> (r: Result<
    CanonicalRequest,
    TranslateError,
>)
    ensures
        request_result_view(r) == request_spec(path@, pairs@, body@),
{
    let target = synthesized_target(path, pairs);
    match parse_uri(target.as_str()) {
        Ok(uri) => Ok(CanonicalRequest { uri, target, body: request_body_bytes(body) }),
        Err(_) => Err(TranslateError::InvalidUri),
    }
}

/// Translating one event twice gives the same request target and the same
/// body bytes, or the same error.
pub proof fn lemma_translation_repeatable(
    path: Seq<char>,
    pairs: Seq<(String, String)>,
    body: EventBodyView,
    first: Result<CanonicalRequest, TranslateError>,
    second: Result<CanonicalRequest, TranslateError>,
)
    requires
        request_result_view(first) == request_spec(path, pairs, body),
        request_result_view(second) == request_spec(path, pairs, body),
    ensures
        request_result_view(first) == request_result_view(second),
{
}

/// A text body reaches the service as exactly the UTF-8 encoding of the text.
pub proof fn lemma_text_body_encoded(
    path: Seq<char>,
    pairs: Seq<(String, String)>,
    text: Seq<char>,
    r: Result<CanonicalRequest, TranslateError>,
)
    requires
        request_result_view(r) == request_spec(path, pairs, EventBodyView::Text(text)),
        r is Ok,
    ensures
        r->Ok_0.body@ == encode_utf8(text),
{
}

/// A binary body reaches the service as exactly the same bytes.
pub proof fn lemma_binary_body_kept(
    path: Seq<char>,
    pairs: Seq<(String, String)>,
    bytes: Seq<u8>,
    r: Result<CanonicalRequest, TranslateError>,
)
    requires
        request_result_view(r) == request_spec(path, pairs, EventBodyView::Binary(bytes)),
        r is Ok,
    ensures
        r->Ok_0.body@ == bytes,
{
}

} // verus!
