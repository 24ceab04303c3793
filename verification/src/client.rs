//! The decisions the writer loop, the reader loop and `send` make, as
//! verified step functions over the pending-request table. The loops
//! themselves are asynchronous plumbing around the connection and live
//! outside the library; they feed each event (a dequeued request, a write
//! outcome, an inbound line, a completion-handle outcome) into these
//! functions and perform the returned action.

use vstd::prelude::*;
use crate::codec::ParsedBody;
use crate::codec::parse_response;
use crate::codec::response_parse_of;
use crate::errors::RequestError;
use crate::pending::PendingTable;

verus! {

/// Capacity of the outbound work queue. Deliberately a small fixed bound:
/// when the queue is saturated, a new `send` waits for space instead of
/// erroring or dropping the request, so a slow or wedged writer stalls new
/// callers rather than growing memory without bound.
pub const OUTBOUND_QUEUE_CAPACITY: usize = 100;

/// What the reader loop must do with one inbound line.
pub enum LineOutcome<V> {
    /// The line did not parse as a response: drop it and carry on. One
    /// corrupt line never aborts the loop or touches a pending request.
    Malformed,
    /// The line bore an identifier with no pending request: drop it and
    /// carry on. A spurious or duplicate response touches nothing.
    Unmatched(u32),
    /// The line answered the pending request with this identifier: resolve
    /// the caller's completion handle with the given result.
    Deliver(u32, V, Result<devcade_onboard_types::ResponseBody, RequestError>),
}

/// Process one inbound line against the pending-request table.
///
/// Exactly the entry whose identifier the line bears is removed, and only
/// when the line parses and that identifier is pending; the handle delivered
/// is exactly the one registered under that identifier, resolved with the
/// error message when the payload is the reserved error variant and with the
/// payload itself otherwise.
pub fn reader_step<V>(table: &mut PendingTable<V>, line: &str) -> (r: LineOutcome<V>)
    ensures
        match response_parse_of(line@) {
            None => final(table)@ == old(table)@ && r is Malformed,
            Some(pr) => {
                if old(table)@.contains_key(pr.0) {
                    &&& final(table)@ == old(table)@.remove(pr.0)
                    &&& r matches LineOutcome::Deliver(id, h, res) && id == pr.0 && h == old(
                        table,
                    )@[pr.0] && (match pr.1 {
                        Some(m) => res matches Err(RequestError::ResponseError(s)) && s@ == m,
                        None => res is Ok,
                    })
                } else {
                    final(table)@ == old(table)@ && r == LineOutcome::<V>::Unmatched(pr.0)
                }
            },
        },
{
    match parse_response(line) {
        None => LineOutcome::Malformed,
        Some((id, body)) => {
            match table.take(id) {
                None => LineOutcome::Unmatched(id),
                Some(handle) => {
                    let result = match body {
                        ParsedBody::Error(message) => Err(RequestError::ResponseError(message)),
                        ParsedBody::Success(payload) => Ok(payload),
                    };
                    LineOutcome::Deliver(id, handle, result)
                },
            }
        },
    }
}

/// What the writer loop must do after attempting to write one frame.
pub enum WriteStep<V> {
    /// The frame was written: the request is now pending under its
    /// identifier, and the loop services the next request.
    Registered,
    /// The write failed: resolve the caller's completion handle with this
    /// error and stop the loop — the connection is unusable, and no further
    /// request, queued or future, is attempted.
    Abort(V, RequestError),
}

/// The writer loop's own state: the identifier counter it advances, and
/// whether a write failure has made the connection unusable. Failure is
/// absorbing: a failed writer prepares no frame and registers nothing, so
/// after a write failure no enqueued or future request is ever attempted.
pub struct Writer {
    counter: u32,
    failed: bool,
}

impl Writer {
    /// Where the next identifier search starts.
    pub closed spec fn counter(self) -> u32 {
        self.counter
    }

    /// Whether a write has failed, killing the connection.
    pub closed spec fn has_failed(self) -> bool {
        self.failed
    }

    /// A writer starts at identifier zero with its connection intact.
    pub fn new() -> (r: Writer)
        ensures
            r.counter() == 0,
            !r.has_failed(),
    {
        Writer { counter: 0, failed: false }
    }

    /// Prepare the next request the loop dequeued: allocate the first
    /// identifier, counting upward from the counter and wrapping, that no
    /// pending request holds, advance the counter to it, and build the frame
    /// that carries it — exactly the request's JSON encoding followed by the
    /// newline delimiter. A writer that has already failed prepares nothing;
    /// an intact writer returns `None` exactly when every identifier is
    /// simultaneously pending, and then gives up rather than reuse one.
    pub fn prepare<V>(
        &mut self,
        table: &PendingTable<V>,
        body: devcade_onboard_types::RequestBody,
    ) -> (r: Option<(u32, Vec<u8>)>)
        ensures
            final(self).has_failed() == old(self).has_failed(),
            old(self).has_failed() ==> r is None && final(self).counter() == old(self).counter(),
            !old(self).has_failed() ==> {
                &&& (r is None <==> table@.dom().len() >= 0x1_0000_0000)
                &&& (r is None ==> final(self).counter() == old(self).counter())
                &&& (r matches Some(p) ==> {
                    &&& !table@.contains_key(p.0)
                    &&& forall|k: u32|
                        crate::pending::wrap_dist(old(self).counter(), k) < crate::pending::wrap_dist(
                            old(self).counter(),
                            p.0,
                        ) ==> table@.contains_key(k)
                    &&& final(self).counter() == p.0
                    &&& p.1@ == crate::codec::encoded_request_of(p.0, body) + seq![10u8]
                    &&& crate::codec::is_frame(p.1@)
                })
            },
    {
        if self.failed {
            return None;
        }
        if table.len() > u32::MAX as usize {
            return None;
        }
        proof {
            table.lemma_dom_finite();
            crate::pending::lemma_small_table_has_free_id(table@);
        }
        let id = table.alloc_id(self.counter);
        self.counter = id;
        let frame = crate::codec::frame_request(id, body);
        Some((id, frame))
    }

    /// Commit the outcome of writing one frame. On a successful write the
    /// caller's handle becomes pending under `id`; on a failed write the
    /// writer is failed for good, the table is untouched, and the handle is
    /// handed back to be resolved with exactly the I/O error that stopped
    /// the connection.
    pub fn commit<V>(
        &mut self,
        table: &mut PendingTable<V>,
        id: u32,
        handle: V,
        write_result: Result<(), std::io::Error>,
    ) -> (r: WriteStep<V>)
        ensures
            final(self).counter() == old(self).counter(),
            write_result is Ok ==> final(table)@ == old(table)@.insert(id, handle) && r
                is Registered && final(self).has_failed() == old(self).has_failed(),
            write_result matches Err(e) ==> final(table)@ == old(table)@ && (r
                matches WriteStep::Abort(h, err) && h == handle && err == RequestError::IoError(e))
                && final(self).has_failed(),
    {
        match write_result {
            Ok(_) => {
                table.register(id, handle);
                WriteStep::Registered
            },
            Err(error) => {
                self.failed = true;
                WriteStep::Abort(handle, RequestError::IoError(error))
            },
        }
    }
}

/// Resolve what `send` returns from what its completion handle produced:
/// `None` stands for a handle abandoned because a loop died, which surfaces
/// as the channel being closed; anything the loops resolved the handle with
/// is returned to the caller exactly as resolved.
pub fn resolve_send(
    received: Option<Result<devcade_onboard_types::ResponseBody, RequestError>>,
) -> (r: Result<devcade_onboard_types::ResponseBody, RequestError>)
    ensures
        received matches Some(outcome) ==> r == outcome,
        received is None ==> (r matches Err(e) && e == RequestError::ChannelClosed),
{
    match received {
        Some(outcome) => outcome,
        None => Err(RequestError::ChannelClosed),
    }
}

#[verifier::external_type_specification]
#[verifier::external_body]
pub struct ExSerdeValue(serde_json::Value);

#[verifier::external_type_specification]
#[verifier::external_body]
#[verifier::reject_recursive_types(K)]
#[verifier::reject_recursive_types(V)]
pub struct ExSerdeMap<K, V>(serde_json::Map<K, V>);

/// The tag association identifier a payload carries: `Some` exactly when the
/// payload is the tag-reader variant, and then its (possibly absent) tag. A
/// function of the payload alone.
pub uninterp spec fn nfc_tag_of(body: devcade_onboard_types::ResponseBody) -> Option<
    Option<Seq<char>>,
>;

/// The attribute map a payload carries: `Some` exactly when the payload is
/// the user-lookup variant, and then the very map. A function of the payload
/// alone.
pub uninterp spec fn nfc_user_of(body: devcade_onboard_types::ResponseBody) -> Option<
    serde_json::Map<String, serde_json::Value>,
>;

/// Relies on matching `devcade_onboard_types::ResponseBody::NfcTag`: the
/// variant's field is moved out; any other payload is handed back unchanged.
#[verifier::external_body]
fn match_nfc_tag(body: devcade_onboard_types::ResponseBody) -> (r: Result<
    Option<String>,
    devcade_onboard_types::ResponseBody,
>)
    ensures
        r is Ok <==> nfc_tag_of(body) is Some,
        r matches Ok(tag) ==> nfc_tag_of(body) == Some(tag.deep_view()),
        r matches Err(b) ==> b == body,
{
    match body {
        devcade_onboard_types::ResponseBody::NfcTag(tag) => Ok(tag),
        other => Err(other),
    }
}

/// Relies on matching `devcade_onboard_types::ResponseBody::NfcUser`: the
/// variant's field is moved out; any other payload is handed back unchanged.
#[verifier::external_body]
fn match_nfc_user(body: devcade_onboard_types::ResponseBody) -> (r: Result<
    serde_json::Map<String, serde_json::Value>,
    devcade_onboard_types::ResponseBody,
>)
    ensures
        r is Ok <==> nfc_user_of(body) is Some,
        r matches Ok(user) ==> nfc_user_of(body) == Some(user),
        r matches Err(b) ==> b == body,
{
    match body {
        devcade_onboard_types::ResponseBody::NfcUser(user) => Ok(user),
        other => Err(other),
    }
}

/// Read a successful response to a tag-reader request: a payload of the
/// tag-reader shape yields exactly the tag association identifier it carries;
/// any other payload shape is surfaced to the caller as `UnexpectedResponse`,
/// carrying that very payload.
pub fn expect_nfc_tag(body: devcade_onboard_types::ResponseBody) -> (r: Result<
    Option<String>,
    RequestError,
>)
    ensures
        r is Ok <==> nfc_tag_of(body) is Some,
        r matches Ok(tag) ==> nfc_tag_of(body) == Some(tag.deep_view()),
        r matches Err(e) ==> e matches RequestError::UnexpectedResponse(b) && b == body
            && nfc_tag_of(body) is None,
{
    match match_nfc_tag(body) {
        Ok(tag) => Ok(tag),
        Err(other) => Err(RequestError::UnexpectedResponse(other)),
    }
}

/// Read a successful response to a user-lookup request: a payload of the
/// user-lookup shape yields exactly the attribute map it carries; any other
/// payload shape is surfaced to the caller as `UnexpectedResponse`, carrying
/// that very payload.
pub fn expect_nfc_user(body: devcade_onboard_types::ResponseBody) -> (r: Result<
    serde_json::Map<String, serde_json::Value>,
    RequestError,
>)
    ensures
        r is Ok <==> nfc_user_of(body) is Some,
        r matches Ok(user) ==> nfc_user_of(body) == Some(user),
        r matches Err(e) ==> e matches RequestError::UnexpectedResponse(b) && b == body
            && nfc_user_of(body) is None,
{
    match match_nfc_user(body) {
        Ok(user) => Ok(user),
        Err(other) => Err(RequestError::UnexpectedResponse(other)),
    }
}

} // verus!
