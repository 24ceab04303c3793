//! The framing codec: a request is serialized as one JSON object followed by
//! a single newline byte, and one inbound line is parsed back into a response
//! identifier together with its payload, classified as an error payload or a
//! success payload.
//!
//! The payload schema itself is an external data contract
//! (`devcade_onboard_types`); this module treats payload values as opaque and
//! states only what the framing needs: where the frame delimiter may occur,
//! which identifier a line carries, and whether its payload is the reserved
//! error variant.

use vstd::prelude::*;

verus! {

#[verifier::external_type_specification]
#[verifier::external_body]
pub struct ExRequestBody(devcade_onboard_types::RequestBody);

#[verifier::external_type_specification]
#[verifier::external_body]
pub struct ExResponseBody(devcade_onboard_types::ResponseBody);

/// A response payload as the reader classifies it: the reserved error
/// variant, carrying the remote-supplied message, or any other payload,
/// carried through opaquely to the caller that awaits it.
pub enum ParsedBody {
    Error(String),
    Success(devcade_onboard_types::ResponseBody),
}

/// The error message of a classified payload, if it is the error variant.
pub open spec fn error_message_of(p: ParsedBody) -> Option<Seq<char>> {
    match p {
        ParsedBody::Error(m) => Some(m@),
        ParsedBody::Success(_) => None,
    }
}

/// What parsing an inbound line yields: `None` when the line is not a
/// well-formed response, and otherwise the response identifier together with
/// the error message when the payload is the reserved error variant. The
/// outcome is a function of the line's characters alone.
pub uninterp spec fn response_parse_of(line: Seq<char>) -> Option<(u32, Option<Seq<char>>)>;

/// Parse one inbound line as a response.
///
/// Relies on `serde_json::from_str` for `devcade_onboard_types::Response`:
/// deserialization is deterministic in the line, and the reserved error
/// variant is `ResponseBody::Err` carrying the message string.
#[verifier::external_body]
fn parse_response_line(line: &str) -> (r: Option<(u32, ParsedBody)>)
    ensures
        r is Some <==> response_parse_of(line@) is Some,
        r matches Some(p) ==> response_parse_of(line@) == Some((p.0, error_message_of(p.1))),
{
    match serde_json::from_str::<devcade_onboard_types::Response>(line) {
        Ok(response) => {
            let body = match response.body {
                devcade_onboard_types::ResponseBody::Err(m) => ParsedBody::Error(m),
                other => ParsedBody::Success(other),
            };
            Some((response.request_id, body))
        },
        Err(_) => None,
    }
}

/// Parse one inbound line as a response: the identifier it bears, and its
/// payload classified as error or success. `None` means the line is
/// malformed; the reader drops such a line and carries on, since the newline
/// delimiter alone separates frames and one corrupt line cannot desynchronize
/// the next.
pub fn parse_response(line: &str) -> (r: Option<(u32, ParsedBody)>)
    ensures
        r is Some <==> response_parse_of(line@) is Some,
        r matches Some(p) ==> response_parse_of(line@) == Some((p.0, error_message_of(p.1))),
{
    parse_response_line(line)
}

/// A well-formed outbound frame: nonempty, delimited by exactly one newline
/// byte, which stands at the end — so frames written back to back can never
/// merge or split on the wire.
pub open spec fn is_frame(bytes: Seq<u8>) -> bool {
    &&& bytes.len() > 0
    &&& bytes.last() == 10u8
    &&& forall|i: int| 0 <= i < bytes.len() - 1 ==> bytes[i] != 10u8
}

/// The JSON encoding of a request (identifier plus body): a function of the
/// two alone, since serialization is deterministic.
pub uninterp spec fn encoded_request_of(id: u32, body: devcade_onboard_types::RequestBody) -> Seq<
    u8,
>;

/// Serialize a request (identifier plus body) as one JSON object.
///
/// Relies on `serde_json::to_vec`: serialization is deterministic; it fails
/// only when a `Serialize` impl fails or a map key is not a string, and the
/// request type's derived impl does neither, so it cannot fail here; and the
/// compact encoding writes no whitespace of its own and escapes every control
/// character inside strings, so no raw newline byte occurs in the output.
#[verifier::external_body]
fn encode_request(id: u32, body: devcade_onboard_types::RequestBody) -> (r: Vec<u8>)
    ensures
        r@ == encoded_request_of(id, body),
        forall|i: int| 0 <= i < r@.len() ==> r@[i] != 10u8,
{
    let request = devcade_onboard_types::Request { request_id: id, body };
    serde_json::to_vec(&request).expect("serializing a request cannot fail")
}

/// Build the outbound frame for a request: exactly its JSON encoding followed
/// by one newline byte, and therefore a well-formed frame.
pub fn frame_request(id: u32, body: devcade_onboard_types::RequestBody) -> (r: Vec<u8>)
    ensures
        r@ == encoded_request_of(id, body) + seq![10u8],
        is_frame(r@),
{
    let mut frame = encode_request(id, body);
    frame.push(10u8);
    proof {
        assert(frame@ =~= encoded_request_of(id, body) + seq![10u8]);
    }
    frame
}

} // verus!
