use vstd::prelude::*;

verus! {

/// Why an event or a response could not be translated.
#[derive(Clone, Copy, Debug, PartialEq, Eq, Structural)]
pub enum TranslateError {
    /// A `Content-Type` header value holds bytes other than visible ASCII.
    HeaderNotText,
    /// A `Content-Type` header value is not a media type.
    InvalidMediaType,
    /// A body declared as text is not valid UTF-8.
    InvalidUtf8,
    /// The request target built from the event is not a valid URI.
    InvalidUri,
}

} // verus!
