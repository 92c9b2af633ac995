use vstd::prelude::*;

use crate::error::ClientError;
use crate::json::{
    bool_field, bool_member, find, int_field, int_member, is_decode_error, json_parse, lookup,
    members, members_view, object_members, opt_int_field, opt_int_member, str_eq,
    str_field, str_member, Json, JsonV,
};

verus! {

/// A response envelope: the result text, the arguments, and the tag of the request.
#[derive(Debug)]
pub struct RpcResponse {
    pub result: String,
    pub arguments: Option<Json>,
    pub tag: Option<i64>,
}

impl View for RpcResponse {
    type V = (Seq<char>, Option<JsonV>, Option<int>);

    open spec fn view(&self) -> Self::V {
        (
            self.result@,
            match self.arguments {
                Some(a) => Some(a@),
                None => None,
            },
            match self.tag {
                Some(t) => Some(t as int),
                None => None,
            },
        )
    }
}

/// What a response envelope holds, or the name of the member that has not its shape (empty
/// for a value that is no object). `result` must be a string; `arguments` that are absent or
/// null are none; `tag` may be absent or null, or else must be an integer.
pub open spec fn envelope(v: JsonV) -> Result<(Seq<char>, Option<JsonV>, Option<int>), Seq<char>> {
    match v {
        JsonV::Object(m) => if str_field(m, "result"@) is None {
            Err("result"@)
        } else if opt_int_field(m, "tag"@) is None {
            Err("tag"@)
        } else {
            Ok(
                (
                    str_field(m, "result"@)->Some_0,
                    match lookup(m, "arguments"@) {
                        Some(JsonV::Null) => None,
                        a => a,
                    },
                    opt_int_field(m, "tag"@)->Some_0,
                ),
            )
        },
        _ => Err(""@),
    }
}

/// The outcome of reading a response envelope from `v`.
pub open spec fn envelope_outcome(v: JsonV, r: Result<RpcResponse, ClientError>) -> bool {
    match envelope(v) {
        Ok(e) => r matches Ok(x) && x@ == e,
        Err(k) => r matches Err(err) && is_decode_error(err, k),
    }
}

impl RpcResponse {
    /// Reads an envelope from a JSON value.
    pub fn from_json(j: Json) -> (r: Result<RpcResponse, ClientError>)
        ensures
            envelope_outcome(j@, r),
    {
        let ghost v = j@;
        match j {
            Json::Object(mut m) => {
                let result = match str_member(&m, "result") {
                    Ok(s) => s,
                    Err(e) => return Err(e),
                };
                let tag = match opt_int_member(&m, "tag") {
                    Ok(t) => t,
                    Err(e) => return Err(e),
                };
                let ghost mv = members_view(&m);
                let arguments = match find(&m, "arguments") {
                    Some(i) => {
                        let (_, a) = m.remove(i);
                        assert(a@ == mv[i as int].1);
                        match a {
                            Json::Null => None,
                            other => Some(other),
                        }
                    },
                    None => None,
                };
                Ok(RpcResponse { result, arguments, tag })
            },
            _ => Err(crate::json::decode_error("")),
        }
    }
}

/// The outcome of reading a response envelope from the bytes `body`.
pub open spec fn response_outcome(body: Seq<u8>, r: Result<RpcResponse, ClientError>) -> bool {
    match json_parse(body) {
        Some(v) => envelope_outcome(v, r),
        None => r matches Err(ClientError::Json(_)),
    }
}

/// Reads a response envelope from the bytes of a response body.
pub fn decode_response(body: &[u8]) -> (r: Result<RpcResponse, ClientError>)
    ensures
        response_outcome(body@, r),
{
    match Json::parse(body) {
        Ok(j) => RpcResponse::from_json(j),
        Err(e) => Err(e),
    }
}

/// Whether a result text is the one that marks success.
pub open spec fn is_success(result: Seq<char>) -> bool {
    result == "success"@
}

/// Classifies a response: on success its arguments, which must be present; otherwise its
/// result text, unchanged, as a `BadResponse`.
pub fn value_from_response(response: RpcResponse) -> (r: Result<Json, ClientError>)
    ensures
        is_success(response.result@) && response.arguments is Some ==> (r matches Ok(x) && x@
            == response.arguments->Some_0@),
        is_success(response.result@) && response.arguments is None ==> r matches Err(
            ClientError::NoArguments,
        ),
        !is_success(response.result@) ==> (r matches Err(ClientError::BadResponse(m)) && m@
            == response.result@),
{
    if str_eq(response.result.as_str(), "success") {
        match response.arguments {
            Some(a) => Ok(a),
            None => Err(ClientError::NoArguments),
        }
    } else {
        Err(ClientError::BadResponse(response.result))
    }
}

/// A successful response's arguments; `None` where classification fails.
pub open spec fn classified(response: (Seq<char>, Option<JsonV>, Option<int>)) -> Option<JsonV> {
    if is_success(response.0) {
        response.1
    } else {
        None
    }
}

/// The error that classification gives where it fails.
pub open spec fn classification_error(
    response: (Seq<char>, Option<JsonV>, Option<int>),
    e: ClientError,
) -> bool {
    if is_success(response.0) {
        e matches ClientError::NoArguments
    } else {
        e matches ClientError::BadResponse(m) && m@ == response.0
    }
}

/// Classifies a response of an operation that returns no payload: success whatever the
/// arguments, or else the result text as a `BadResponse`.
pub fn status_from_response(response: RpcResponse) -> (r: Result<(), ClientError>)
    ensures
        is_success(response.result@) <==> r is Ok,
        !is_success(response.result@) ==> (r matches Err(ClientError::BadResponse(m)) && m@
            == response.result@),
{
    if str_eq(response.result.as_str(), "success") {
        Ok(())
    } else {
        Err(ClientError::BadResponse(response.result))
    }
}

/// Whether the port of the daemon is open.
#[derive(Debug, Clone, Copy, PartialEq, Eq, Structural)]
pub struct PortTest {
    pub port_is_open: bool,
}

/// `{"port-is-open": <bool>}`
pub open spec fn port_test_of(v: JsonV) -> Option<PortTest> {
    match members(v) {
        Some(m) => match bool_field(m, "port-is-open"@) {
            Some(b) => Some(PortTest { port_is_open: b }),
            None => None,
        },
        None => None,
    }
}

impl PortTest {
    pub fn from_json(v: &Json) -> (r: Result<PortTest, ClientError>)
        ensures
            r is Ok <==> port_test_of(v@) is Some,
            r matches Ok(x) ==> port_test_of(v@) == Some(x),
            r matches Err(e) ==> e is Decode,
    {
        let m = object_members(v)?;
        let port_is_open = bool_member(m, "port-is-open")?;
        Ok(PortTest { port_is_open })
    }

    /// The typed result of a response.
    pub fn from_response(response: RpcResponse) -> (r: Result<PortTest, ClientError>)
        ensures
            classified(response@) is None ==> (r matches Err(e) && classification_error(
                response@,
                e,
            )),
            classified(response@) matches Some(a) ==> (r is Ok <==> port_test_of(a) is Some) && (
            r matches Ok(x) ==> port_test_of(a) == Some(x)),
    {
        let v = value_from_response(response)?;
        PortTest::from_json(&v)
    }
}

/// The size of the blocklist after an update.
#[derive(Debug, Clone, Copy, PartialEq, Eq, Structural)]
pub struct BlocklistUpdate {
    pub blocklist_size: i64,
}

/// `{"blocklist-size": <integer>}`
pub open spec fn blocklist_update_of(v: JsonV) -> Option<BlocklistUpdate> {
    match members(v) {
        Some(m) => match int_field(m, "blocklist-size"@) {
            Some(n) => Some(BlocklistUpdate { blocklist_size: n as i64 }),
            None => None,
        },
        None => None,
    }
}

impl BlocklistUpdate {
    pub fn from_json(v: &Json) -> (r: Result<BlocklistUpdate, ClientError>)
        ensures
            r is Ok <==> blocklist_update_of(v@) is Some,
            r matches Ok(x) ==> blocklist_update_of(v@) == Some(x),
            r matches Err(e) ==> e is Decode,
    {
        let m = object_members(v)?;
        let blocklist_size = int_member(m, "blocklist-size")?;
        Ok(BlocklistUpdate { blocklist_size })
    }

    /// The typed result of a response.
    pub fn from_response(response: RpcResponse) -> (r: Result<BlocklistUpdate, ClientError>)
        ensures
            classified(response@) is None ==> (r matches Err(e) && classification_error(
                response@,
                e,
            )),
            classified(response@) matches Some(a) ==> (r is Ok <==> blocklist_update_of(a) is Some)
                && (r matches Ok(x) ==> blocklist_update_of(a) == Some(x)),
    {
        let v = value_from_response(response)?;
        BlocklistUpdate::from_json(&v)
    }
}

/// The free space under a directory of the daemon's host.
#[derive(Debug)]
pub struct FreeSpace {
    pub path: String,
    pub size_bytes: i64,
}

impl View for FreeSpace {
    type V = (Seq<char>, int);

    open spec fn view(&self) -> (Seq<char>, int) {
        (self.path@, self.size_bytes as int)
    }
}

/// `{"path": <string>, "size-bytes": <integer>}`
pub open spec fn free_space_of(v: JsonV) -> Option<(Seq<char>, int)> {
    match members(v) {
        Some(m) => match (str_field(m, "path"@), int_field(m, "size-bytes"@)) {
            (Some(p), Some(n)) => Some((p, n)),
            _ => None,
        },
        None => None,
    }
}

impl FreeSpace {
    pub fn from_json(v: &Json) -> (r: Result<FreeSpace, ClientError>)
        ensures
            r is Ok <==> free_space_of(v@) is Some,
            r matches Ok(x) ==> free_space_of(v@) == Some(x@),
            r matches Err(e) ==> e is Decode,
    {
        let m = object_members(v)?;
        let path = str_member(m, "path")?;
        let size_bytes = int_member(m, "size-bytes")?;
        Ok(FreeSpace { path, size_bytes })
    }

    /// The typed result of a response.
    pub fn from_response(response: RpcResponse) -> (r: Result<FreeSpace, ClientError>)
        ensures
            classified(response@) is None ==> (r matches Err(e) && classification_error(
                response@,
                e,
            )),
            classified(response@) matches Some(a) ==> (r is Ok <==> free_space_of(a) is Some) && (
            r matches Ok(x) ==> free_space_of(a) == Some(x@)),
    {
        let v = value_from_response(response)?;
        FreeSpace::from_json(&v)
    }
}

} // verus!
