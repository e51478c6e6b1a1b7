//! Request dispatch of the IPC server. Socket handling, framing and JSON
//! decoding live outside the library; this is the synchronous core that
//! turns one decoded request into one response.
use vstd::prelude::*;

use crate::daemon::ipc::protocol::{Request, RequestOp, Response};

verus! {

/// The state the server dispatches requests against: for now, a count of
/// answered pings.
#[derive(Debug, Default)]
pub struct ServerState {
    pub ping_count: u64,
}

/// Maximum length (in bytes) of a single newline-delimited line the server
/// accepts; longer lines are answered with an error.
pub const MAX_LINE_BYTES: usize = 4096;

/// The error text for operations not served yet.
pub open spec fn not_implemented_text() -> Seq<char> {
    "not implemented yet"@
}

/// The error text for operations this build does not know.
pub open spec fn unsupported_text() -> Seq<char> {
    "unsupported op"@
}

/// The error text for a line longer than [`MAX_LINE_BYTES`].
pub open spec fn too_long_text() -> Seq<char> {
    "line too long"@
}

/// The error text for a line that does not decode as a request.
pub open spec fn malformed_text() -> Seq<char> {
    "malformed request: invalid JSON"@
}

/// The text of an optional error message.
pub open spec fn error_text(error: Option<String>) -> Option<Seq<char>> {
    match error {
        Some(e) => Some(e@),
        None => None,
    }
}

/// The error that answers `op`, or `None` where it succeeds: only a ping
/// succeeds.
pub open spec fn request_error(op: RequestOp) -> Option<Seq<char>> {
    match op {
        RequestOp::Ping => None,
        RequestOp::Unknown => Some(unsupported_text()),
        _ => Some(not_implemented_text()),
    }
}

/// The error that answers a received line of `line_len` bytes that decoded
/// to `decoded` (or did not decode), or `None` where it succeeds.
pub open spec fn line_error(line_len: nat, decoded: Option<RequestOp>) -> Option<Seq<char>> {
    if line_len > MAX_LINE_BYTES {
        Some(too_long_text())
    } else {
        match decoded {
            Some(op) => request_error(op),
            None => Some(malformed_text()),
        }
    }
}

/// Handles one decoded [`Request`]: a ping is counted and acknowledged; the
/// pet operations are not served yet and answer an error saying so; an
/// unknown operation answers an error too.
pub fn handle_request(state: &mut ServerState, req: &Request) -> (resp: Response)
    requires
        req.op is Ping ==> old(state).ping_count < u64::MAX,
    ensures
        final(state).ping_count == old(state).ping_count + if req.op is Ping {
            1int
        } else {
            0int
        },
        resp.ok == request_error(req.op) is None,
        error_text(resp.error) == request_error(req.op),
        resp.state is None,
        resp.prompt is None,
{
    match &req.op {
        RequestOp::Ping => {
            state.ping_count = state.ping_count + 1;
            Response::ok_empty()
        },
        RequestOp::Status
        | RequestOp::Feed { .. }
        | RequestOp::Prompt { .. }
        | RequestOp::Clean
        | RequestOp::Pet
        | RequestOp::Hatch { .. } => Response::err("not implemented yet"),
        RequestOp::Unknown => Response::err("unsupported op"),
    }
}

/// Answers one line received on a connection, given its length in bytes
/// (line feed included) and the request it decoded to, if it decoded: a line
/// over [`MAX_LINE_BYTES`] is refused as too long, one that did not decode as
/// malformed, and any other is handled by [`handle_request`]. A refused
/// line leaves the state as it was.
pub fn answer_line(state: &mut ServerState, line_len: usize, decoded: Option<&Request>) -> (resp:
    Response)
    requires
        line_len <= MAX_LINE_BYTES ==> (decoded matches Some(r) && r.op is Ping
            ==> old(state).ping_count < u64::MAX),
    ensures
        final(state).ping_count == old(state).ping_count + if line_len <= MAX_LINE_BYTES && (
        decoded matches Some(r) && r.op is Ping) {
            1int
        } else {
            0int
        },
        resp.ok == line_error(
            line_len as nat,
            match decoded {
                Some(r) => Some(r.op),
                None => None,
            },
        ) is None,
        error_text(resp.error) == line_error(
            line_len as nat,
            match decoded {
                Some(r) => Some(r.op),
                None => None,
            },
        ),
        resp.state is None,
        resp.prompt is None,
{
    if line_len > MAX_LINE_BYTES {
        return Response::err("line too long");
    }
    match decoded {
        Some(req) => handle_request(state, req),
        None => Response::err("malformed request: invalid JSON"),
    }
}

} // verus!
