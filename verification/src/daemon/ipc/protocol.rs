//! Message types of the newline-delimited JSON IPC protocol exchanged
//! between the CLI/shell-hook and the daemon. Each message is one line of
//! JSON; this module defines only the message shapes.
use vstd::prelude::*;

use crate::pet::state::PetState;

verus! {

/// The current IPC protocol version, sent as the `v` field on every request.
pub const PROTOCOL_VERSION: u32 = 1;

/// The operation-specific payload of a [`Request`], tagged on its `op` field.
#[derive(Clone, Debug, PartialEq)]
pub enum RequestOp {
    Feed { exit_code: i32, duration_ms: u64, argv0: String, ts: i64 },
    Status,
    Prompt { format: String },
    Clean,
    Pet,
    Hatch { species: String },
    Ping,
    /// Fallback for ops this build doesn't recognize; decoding an unknown
    /// `op` never fails the connection.
    Unknown,
}

/// A request sent from the CLI/shell-hook to the daemon.
#[derive(Clone, Debug, PartialEq)]
pub struct Request {
    pub v: u32,
    pub op: RequestOp,
}

impl Request {
    /// A request of the current protocol version.
    pub fn new(op: RequestOp) -> (r: Request)
        ensures
            r.v == PROTOCOL_VERSION,
            r.op == op,
    {
        Request { v: PROTOCOL_VERSION, op }
    }
}

/// A response sent from the daemon back to the CLI/shell-hook: `ok` plus
/// optional `state`, `prompt` and `error` payloads (absent ones are left out
/// of the wire format).
#[derive(Clone, Debug, PartialEq)]
pub struct Response {
    pub ok: bool,
    pub state: Option<PetState>,
    pub prompt: Option<String>,
    pub error: Option<String>,
}

impl Response {
    /// A bare success acknowledgement with no payload: `{"ok":true}`.
    pub fn ok_empty() -> (r: Response)
        ensures
            r.ok,
            r.state is None,
            r.prompt is None,
            r.error is None,
    {
        Response { ok: true, state: None, prompt: None, error: None }
    }

    /// A success response carrying a `PetState` snapshot.
    pub fn ok_state(state: PetState) -> (r: Response)
        ensures
            r.ok,
            r.state == Some(state),
            r.prompt is None,
            r.error is None,
    {
        Response { ok: true, state: Some(state), prompt: None, error: None }
    }

    /// A success response carrying a rendered prompt string.
    pub fn ok_prompt(prompt: String) -> (r: Response)
        ensures
            r.ok,
            r.state is None,
            r.prompt == Some(prompt),
            r.error is None,
    {
        Response { ok: true, state: None, prompt: Some(prompt), error: None }
    }

    /// An error response: `{"ok":false,"error":"..."}`.
    pub fn err(message: &str) -> (r: Response)
        ensures
            !r.ok,
            r.state is None,
            r.prompt is None,
            r.error matches Some(e) && e@ == message@,
    {
        Response { ok: false, state: None, prompt: None, error: Some(String::from_str(message)) }
    }
}

/// What a client makes of the daemon's answer to a status request: the
/// pet's state when the answer succeeded and carries one; otherwise an error
/// saying that the daemon reported an error (with its message, or
/// `no_message` when it gave none) or that the state was missing.
pub fn status_reply(response: Response, no_message: &str) -> (out: Result<PetState, String>)
    ensures
        response.ok && response.state is Some ==> out == Ok::<PetState, String>(
            response.state->0,
        ),
        !response.ok ==> (out matches Err(m) && m@ == "daemon reported an error: "@ + match response.error {
            Some(e) => e@,
            None => no_message@,
        }),
        response.ok && response.state is None ==> (out matches Err(m) && m@
            == "daemon's status response was missing pet state"@),
{
    if !response.ok {
        let mut message = String::from_str("daemon reported an error: ");
        match response.error {
            Some(e) => message.append(e.as_str()),
            None => message.append(no_message),
        }
        return Err(message);
    }
    match response.state {
        Some(state) => Ok(state),
        None => Err(String::from_str("daemon's status response was missing pet state")),
    }
}

} // verus!
