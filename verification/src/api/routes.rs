//! Requests that no endpoint takes.

use vstd::prelude::*;
use vstd::string::StringExecFns;
use crate::api::error_code::{Response, STATUS_BAD_REQUEST};

verus! {

/// The body of the reply to a request under `path`, where no endpoint is.
pub open spec fn no_such_endpoint_message(path: Seq<char>) -> Seq<char> {
    "No such endpoint: "@ + path
}

/// The reply to a request under `path`, where no endpoint is: a bad
/// request that names the path.
pub fn handle_routing_error(path: &str) -> (response: Response)
    ensures
        response.status == STATUS_BAD_REQUEST,
        response.body@ == no_such_endpoint_message(path@),
{
    let mut body = "No such endpoint: ".to_string();
    body.append(path);
    Response { status: STATUS_BAD_REQUEST, body }
}

} // verus!
