//! Wire framing of streaming events.
//!
//! Each chunk is serialised as a single line `data: <JSON object>` followed
//! by a blank line; the terminal event is the literal line `data: [DONE]`.
//! No other framing exists on the streaming path.

use vstd::prelude::*;
use vstd::string::*;

use crate::session::StreamEvent;

verus! {

/// What serde_json's string serializer returns for the characters of a
/// string slice: the quoted, escaped JSON string literal.
pub uninterp spec fn json_string_literal(s: Seq<char>) -> Seq<char>;

/// Relies on serde_json::to_string on a string slice: the escaped JSON
/// string literal depends on the slice's characters alone, and serialising
/// a string slice never fails.
#[verifier::external_body]
fn json_encode_str(s: &str) -> (r: String)
    ensures
        r@ == json_string_literal(s@),
{
    serde_json::to_string(s).unwrap()
}

/// The wire line for one chunk of content: the JSON string literal of the
/// content inside a fixed single-choice delta object.
pub open spec fn spec_sse_event(content: Seq<char>) -> Seq<char> {
    "data: {\"choices\":[{\"delta\":{\"content\":"@ + json_string_literal(content)
        + "}}]}\n\n"@
}

/// Frame one chunk of content as a server-sent event line.
pub fn sse_event_from_content(content: &str) -> (r: String)
    ensures
        r@ == spec_sse_event(content@),
{
    let mut r = String::from_str("data: {\"choices\":[{\"delta\":{\"content\":");
    let quoted = json_encode_str(content);
    r.append(quoted.as_str());
    r.append("}}]}\n\n");
    r
}

/// The characters of the terminal marker line that ends every stream.
pub open spec fn spec_done_event() -> Seq<char> {
    "data: [DONE]\n\n"@
}

/// The terminal marker line.
pub fn done_event() -> (r: String)
    ensures
        r@ == spec_done_event(),
{
    String::from_str("data: [DONE]\n\n")
}

/// Frame any stream event as its wire line.
pub fn frame_event(ev: &StreamEvent) -> (r: String)
    ensures
        ev matches StreamEvent::Chunk(c) ==> r@ == spec_sse_event(c@),
        ev is Done ==> r@ == spec_done_event(),
{
    match ev {
        StreamEvent::Chunk(c) => sse_event_from_content(c.as_str()),
        StreamEvent::Done => done_event(),
    }
}

} // verus!
