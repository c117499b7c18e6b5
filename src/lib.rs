use vstd::prelude::*;

pub mod body;
pub mod error;
pub mod media;
pub mod request;
pub mod response;

pub use body::{request_body_bytes, EventBody};
pub use error::TranslateError;
pub use media::{is_text_safe, MediaType};
pub use request::{query_string, synthesized_target, translate_request, CanonicalRequest};
pub use response::response_event_body;

verus! {

} // verus!
