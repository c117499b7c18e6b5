use vstd::prelude::*;
use vstd::string::*;

verus! {

/// What parsing a media type yields: its normalized text and its top-level type.
pub uninterp spec fn mime_parse_of(s: Seq<char>) -> Option<(Seq<char>, Seq<char>)>;

/// A parsed media type, as its normalized text (`application/json`) and its
/// top-level type (`application`).
#[derive(Debug)]
pub struct MediaType {
    pub source: String,
    pub top: String,
}

#[verifier::external_type_specification]
#[verifier::external_body]
pub struct ExMimeFromStrError(mime::FromStrError);

/// Relies on `mime::Mime::from_str`, `Mime::as_ref` and `Mime::type_`: parsing
/// is a function of the text alone.
#[verifier::external_body]
pub(crate) fn parse_mime(s: &str) -> (r: Result<MediaType, mime::FromStrError>)
    ensures
        r is Ok <==> mime_parse_of(s@) is Some,
        r matches Ok(m) ==> mime_parse_of(s@) == Some((m.source@, m.top@)),
{
    match s.parse::<mime::Mime>() {
        Ok(m) => Ok(MediaType { source: m.as_ref().to_string(), top: m.type_().as_str().to_string() }),
        Err(e) => Err(e),
    }
}

/// Media types whose bodies are handed on as text: JSON, JavaScript (plain
/// or declared UTF-8), and every `text/*` type. A parsed type is one of the
/// listed ones when its normalized text is exactly theirs, so
/// `application/json; charset=utf-8` is not JSON here.
pub open spec fn is_text_safe_spec(source: Seq<char>, top: Seq<char>) -> bool {
    ||| source == "application/json"@
    ||| source == "application/javascript"@
    ||| source == "application/javascript; charset=utf-8"@
    ||| top == "text"@
}

fn same_text(a: &str, b: &str) -> (r: bool)
    ensures
        r == (a@ == b@),
{
    let n = a.unicode_len();
    if n != b.unicode_len() {
        return false;
    }
    let mut i: usize = 0;
    while i < n
        invariant
            n == a@.len(),
            n == b@.len(),
            i <= n,
            forall|j: int| 0 <= j < i ==> a@[j] == b@[j],
        decreases n - i,
    {
        if a.get_char(i) != b.get_char(i) {
            return false;
        }
        i += 1;
    }
    assert(a@ =~= b@);
    true
}

/// Whether a body of this media type is to be handed on as text.
pub fn is_text_safe(m: &MediaType) -> (r: bool)
    ensures
        r == is_text_safe_spec(m.source@, m.top@),
{
    let src = m.source.as_str();
    same_text(src, "application/json") || same_text(src, "application/javascript")
        || same_text(src, "application/javascript; charset=utf-8")
        || same_text(m.top.as_str(), "text")
}

} // verus!
