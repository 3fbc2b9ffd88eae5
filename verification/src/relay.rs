//! Outcome relaying.
//!
//! Every call into the scraping client ends in either a payload to relay
//! or an error to surface; the mapping to an HTTP reply is uniform for
//! both endpoints and does not distinguish error causes.

use vstd::prelude::*;

verus! {

/// One HTTP reply: a status code and a body.
pub struct HttpReply {
    pub status: u16,
    pub body: String,
}

/// Maps the outcome of a client call to the reply sent to the caller: a
/// successful payload is relayed verbatim with status 200; a failure is
/// surfaced as status 500 with the error's text as the body, whatever the
/// underlying cause.
pub fn relay_outcome(outcome: Result<String, String>) -> (r: HttpReply)
    ensures
        outcome matches Ok(payload) ==> r.status == 200 && r.body@ == payload@,
        outcome matches Err(msg) ==> r.status == 500 && r.body@ == msg@,
{
    match outcome {
        Ok(payload) => HttpReply { status: 200, body: payload },
        Err(msg) => HttpReply { status: 500, body: msg },
    }
}

} // verus!
