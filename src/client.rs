use vstd::prelude::*;

use crate::error::ClientError;
use crate::json::{json_bytes, json_parse};
use crate::request::RpcRequest;
use crate::response::{decode_response, envelope, response_outcome, RpcResponse};

verus! {

/// The status with which the daemon refuses a client outright.
pub const UNAUTHORIZED: u16 = 401;

/// The status with which the daemon asks for a fresh session id.
pub const CONFLICT: u16 = 409;

/// The header that carries the session id, both ways.
pub const SESSION_ID_HEADER: &'static str = "X-Transmission-Session-Id";

/// The message of a conflict that came without a session id and without an envelope.
pub const CONFLICT_WITHOUT_ID: &'static str = "conflict without a session id";

/// A client of the daemon: where it is, and the session id that the daemon issued last
/// (empty until the daemon issues one).
pub struct Client {
    uri: String,
    id: String,
}

impl View for Client {
    type V = (Seq<char>, Seq<char>);

    closed spec fn view(&self) -> (Seq<char>, Seq<char>) {
        (self.uri@, self.id@)
    }
}

/// One logical call: the bytes of its request, and whether they were sent again already.
pub struct Call {
    body: Vec<u8>,
    retried: bool,
}

impl View for Call {
    type V = (Seq<u8>, bool);

    closed spec fn view(&self) -> (Seq<u8>, bool) {
        (self.body@, self.retried)
    }
}

impl Call {
    /// A call of `request`, not yet sent.
    pub fn new(request: RpcRequest) -> (r: Call)
        ensures
            r@ == (json_bytes(request.spec_json()), false),
    {
        Call { body: request.encode(), retried: false }
    }

    /// The bytes to send, the same on every exchange of the call.
    pub fn body(&self) -> (r: &[u8])
        ensures
            r@ == self@.0,
    {
        self.body.as_slice()
    }

    /// Whether the call has been sent a second time.
    pub fn is_retry(&self) -> (r: bool)
        ensures
            r == self@.1,
    {
        self.retried
    }
}

/// What the transport brought back from one exchange.
#[derive(Debug)]
pub struct Reply {
    pub status: u16,
    /// The value of the session id header, where the response has one.
    pub session_id: Option<String>,
    pub body: Vec<u8>,
}

/// What to do after an exchange.
#[derive(Debug)]
pub enum Step {
    /// Send the call's bytes once more, with the client's new session id.
    Resend,
    /// The call is over, with this outcome.
    Done(Result<RpcResponse, ClientError>),
}

/// The message of a conflict without a session id: the result text of its envelope, where the
/// body holds one.
pub open spec fn conflict_message(body: Seq<u8>) -> Seq<char> {
    match json_parse(body) {
        Some(v) => match envelope(v) {
            Ok(e) => e.0,
            Err(_) => CONFLICT_WITHOUT_ID@,
        },
        None => CONFLICT_WITHOUT_ID@,
    }
}

/// Whether an exchange asks for the call to be sent again: a first exchange that the daemon
/// answered with a conflict and a fresh session id.
pub open spec fn asks_resend(call: (Seq<u8>, bool), reply: &Reply) -> bool {
    !call.1 && reply.status == CONFLICT && reply.session_id is Some
}

/// A call is sent at most twice: once it has been sent again, no reply asks for more.
pub proof fn lemma_at_most_one_resend(body: Seq<u8>, first: &Reply, second: &Reply)
    requires
        asks_resend((body, false), first),
    ensures
        !asks_resend((body, true), second),
{
}

impl Client {
    /// A client of the daemon at `uri`, without a session id yet.
    pub fn new(uri: &str) -> (r: Client)
        ensures
            r@ == (uri@, Seq::<char>::empty()),
    {
        Client { uri: uri.to_string(), id: String::new() }
    }

    /// Records the session id that the daemon issued.
    fn set_id(&mut self, id: String)
        ensures
            final(self)@ == (old(self)@.0, id@),
    {
        self.id = id;
    }

    pub fn uri(&self) -> (r: &str)
        ensures
            r@ == self@.0,
    {
        self.uri.as_str()
    }

    /// The session id that goes with the next exchange.
    pub fn session_id(&self) -> (r: &str)
        ensures
            r@ == self@.1,
    {
        self.id.as_str()
    }

    /// The headers of an exchange: no caching, a JSON body, and the current session id
    /// (empty before the daemon issued one).
    pub fn headers(&self) -> (r: Vec<(String, String)>)
        ensures
            r@.len() == 4,
            r@[0].0@ == "Cache-Control"@ && r@[0].1@ == "no-cache"@,
            r@[1].0@ == "Pragma"@ && r@[1].1@ == "no-cache"@,
            r@[2].0@ == "Content-Type"@ && r@[2].1@ == "application/json"@,
            r@[3].0@ == SESSION_ID_HEADER@ && r@[3].1@ == self@.1,
    {
        let mut r: Vec<(String, String)> = Vec::new();
        r.push(("Cache-Control".to_string(), "no-cache".to_string()));
        r.push(("Pragma".to_string(), "no-cache".to_string()));
        r.push(("Content-Type".to_string(), "application/json".to_string()));
        r.push((SESSION_ID_HEADER.to_string(), self.id.clone()));
        r
    }

    /// Decides what follows an exchange of `call`. An unauthorized status ends the call. A
    /// conflict on the first exchange with a fresh session id records the id and asks for the
    /// same bytes to be sent once more; without an id it ends the call as a `BadResponse`.
    /// Any other reply, and every reply to the second exchange, is read as a response
    /// envelope.
    pub fn on_reply(&mut self, call: &mut Call, reply: Reply) -> (r: Step)
        ensures
            final(call)@.0 == old(call)@.0,
            asks_resend(old(call)@, &reply) ==> r is Resend && final(call)@.1 && final(self)@ == (
            old(self)@.0, reply.session_id->Some_0@),
            !asks_resend(old(call)@, &reply) ==> !(r is Resend) && final(self)@ == old(self)@
                && final(call)@ == old(call)@,
            reply.status == UNAUTHORIZED ==> r matches Step::Done(Err(ClientError::NotAuth)),
            reply.status == CONFLICT && !old(call)@.1 && reply.session_id is None ==> (
            r matches Step::Done(Err(ClientError::BadResponse(m))) && m@ == conflict_message(
                reply.body@,
            )),
            reply.status != UNAUTHORIZED && (reply.status != CONFLICT || old(call)@.1) ==> (
            r matches Step::Done(d) && response_outcome(reply.body@, d)),
    {
        if reply.status == UNAUTHORIZED {
            return Step::Done(Err(ClientError::NotAuth));
        }
        if reply.status == CONFLICT && !call.retried {
            match reply.session_id {
                Some(id) => {
                    self.set_id(id);
                    call.retried = true;
                    Step::Resend
                },
                None => {
                    let message = match decode_response(reply.body.as_slice()) {
                        Ok(response) => response.result,
                        Err(_) => CONFLICT_WITHOUT_ID.to_string(),
                    };
                    Step::Done(Err(ClientError::BadResponse(message)))
                },
            }
        } else {
            Step::Done(decode_response(reply.body.as_slice()))
        }
    }
}

} // verus!
