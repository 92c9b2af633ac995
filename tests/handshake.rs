use trpc::client::{Call, Client, Reply, Step, CONFLICT, SESSION_ID_HEADER, UNAUTHORIZED};
use trpc::request::{Ids, Method, RpcRequest};
use trpc::response::{value_from_response, RpcResponse};
use trpc::session::SessionStats;
use trpc::torrent::TorrentAddArgs;
use trpc::ClientError;

/// A transport that answers with canned replies and records what it was sent.
struct Stub {
    replies: Vec<Reply>,
    sent: Vec<(Vec<u8>, String)>,
}

impl Stub {
    fn new(replies: Vec<Reply>) -> Stub {
        let mut replies = replies;
        replies.reverse();
        Stub { replies, sent: Vec::new() }
    }

    fn exchange(&mut self, client: &Client, call: &Call) -> Reply {
        let headers = client.headers();
        let id = headers
            .iter()
            .find(|(k, _)| k == SESSION_ID_HEADER)
            .map(|(_, v)| v.clone())
            .unwrap();
        self.sent.push((call.body().to_vec(), id));
        self.replies.pop().expect("no reply left")
    }
}

fn run(client: &mut Client, stub: &mut Stub, request: RpcRequest) -> Result<RpcResponse, ClientError> {
    let mut call = Call::new(request);
    loop {
        let reply = stub.exchange(client, &call);
        match client.on_reply(&mut call, reply) {
            Step::Resend => continue,
            Step::Done(r) => return r,
        }
    }
}

fn reply(status: u16, id: Option<&str>, body: &str) -> Reply {
    Reply { status, session_id: id.map(|s| s.to_string()), body: body.as_bytes().to_vec() }
}

const OK_BODY: &str = "{\"result\":\"success\",\"arguments\":{\"torrentCount\":3}}";

#[test]
fn conflict_with_token_retries_once_with_same_body() {
    let mut client = Client::new("http://localhost:9091/transmission/rpc");
    assert_eq!(client.session_id(), "");
    let mut stub = Stub::new(vec![reply(CONFLICT, Some("abc123"), ""), reply(200, None, OK_BODY)]);
    let request = RpcRequest { method: Method::TorrentStart, arguments: None, tag: Some(Ids::Id(4)) };
    let r = run(&mut client, &mut stub, request).unwrap();
    assert_eq!(r.result, "success");
    assert_eq!(stub.sent.len(), 2);
    assert_eq!(stub.sent[0].0, stub.sent[1].0);
    assert_eq!(stub.sent[0].1, "");
    assert_eq!(stub.sent[1].1, "abc123");
    assert_eq!(client.session_id(), "abc123");
    let sent: serde_json::Value = serde_json::from_slice(&stub.sent[1].0).unwrap();
    let expected: serde_json::Value =
        serde_json::from_str("{\"method\":\"torrent-start\",\"tag\":4}").unwrap();
    assert_eq!(sent, expected);
}

#[test]
fn token_is_kept_for_later_calls() {
    let mut client = Client::new("http://localhost:9091/transmission/rpc");
    let mut stub = Stub::new(vec![
        reply(CONFLICT, Some("tok"), ""),
        reply(200, None, OK_BODY),
        reply(200, None, OK_BODY),
    ]);
    run(&mut client, &mut stub, RpcRequest::new(Method::SessionStats, None)).unwrap();
    run(&mut client, &mut stub, RpcRequest::new(Method::SessionStats, None)).unwrap();
    assert_eq!(stub.sent.len(), 3);
    assert_eq!(stub.sent[2].1, "tok");
}

#[test]
fn conflict_without_token_is_bad_response_without_retry() {
    let mut client = Client::new("http://localhost:9091/transmission/rpc");
    let mut stub = Stub::new(vec![reply(CONFLICT, None, "<h1>409: Conflict</h1>")]);
    let r = run(&mut client, &mut stub, RpcRequest::new(Method::SessionStats, None));
    assert!(matches!(r, Err(ClientError::BadResponse(_))));
    assert_eq!(stub.sent.len(), 1);
    assert_eq!(client.session_id(), "");
}

#[test]
fn conflict_without_token_keeps_envelope_result() {
    let mut client = Client::new("http://localhost:9091/transmission/rpc");
    let mut stub = Stub::new(vec![reply(CONFLICT, None, "{\"result\":\"stale session\"}")]);
    match run(&mut client, &mut stub, RpcRequest::new(Method::SessionStats, None)) {
        Err(ClientError::BadResponse(m)) => assert_eq!(m, "stale session"),
        other => panic!("unexpected {:?}", other),
    }
    assert_eq!(stub.sent.len(), 1);
}

#[test]
fn unauthorized_is_not_retried() {
    let mut client = Client::new("http://localhost:9091/transmission/rpc");
    let mut stub = Stub::new(vec![reply(UNAUTHORIZED, Some("abc"), "")]);
    let r = run(&mut client, &mut stub, RpcRequest::new(Method::SessionStats, None));
    assert!(matches!(r, Err(ClientError::NotAuth)));
    assert_eq!(stub.sent.len(), 1);
    assert_eq!(client.session_id(), "");
}

#[test]
fn unauthorized_with_a_token_held_is_not_retried() {
    let mut client = Client::new("http://localhost:9091/transmission/rpc");
    let mut stub = Stub::new(vec![
        reply(CONFLICT, Some("abc"), ""),
        reply(200, None, OK_BODY),
        reply(UNAUTHORIZED, None, ""),
    ]);
    run(&mut client, &mut stub, RpcRequest::new(Method::SessionStats, None)).unwrap();
    let r = run(&mut client, &mut stub, RpcRequest::new(Method::SessionStats, None));
    assert!(matches!(r, Err(ClientError::NotAuth)));
    assert_eq!(stub.sent.len(), 3);
}

#[test]
fn second_conflict_is_not_retried_again() {
    let mut client = Client::new("http://localhost:9091/transmission/rpc");
    let mut stub = Stub::new(vec![
        reply(CONFLICT, Some("a"), ""),
        reply(CONFLICT, Some("b"), "{\"result\":\"still stale\"}"),
    ]);
    let r = run(&mut client, &mut stub, RpcRequest::new(Method::SessionStats, None)).unwrap();
    assert_eq!(r.result, "still stale");
    assert_eq!(stub.sent.len(), 2);
    assert_eq!(client.session_id(), "a");
}

#[test]
fn malformed_body_is_a_json_error() {
    let mut client = Client::new("http://localhost:9091/transmission/rpc");
    let mut stub = Stub::new(vec![reply(200, None, "not json")]);
    let r = run(&mut client, &mut stub, RpcRequest::new(Method::SessionStats, None));
    assert!(matches!(r, Err(ClientError::Json(_))));
}

#[test]
fn headers_carry_the_session_id() {
    let mut client = Client::new("http://h/rpc");
    assert_eq!(client.uri(), "http://h/rpc");
    let h = client.headers();
    assert_eq!(h.len(), 4);
    assert_eq!(h[2], ("Content-Type".to_string(), "application/json".to_string()));
    assert_eq!(h[3], ("X-Transmission-Session-Id".to_string(), "".to_string()));
    let mut call = Call::new(RpcRequest::new(Method::PortTest, None));
    assert!(!call.is_retry());
    let step = client.on_reply(&mut call, reply(CONFLICT, Some("xyz"), ""));
    assert!(matches!(step, Step::Resend));
    assert!(call.is_retry());
    assert_eq!(client.headers()[3].1, "xyz");
}

#[test]
fn session_stats_scenario() {
    let mut client = Client::new("http://localhost:9091/transmission/rpc");
    let mut stub = Stub::new(vec![reply(200, None, OK_BODY)]);
    let r = run(&mut client, &mut stub, RpcRequest::new(Method::SessionStats, None)).unwrap();
    let stats = SessionStats::from_response(r).unwrap();
    assert_eq!(stats.torrent_count, Some(3));
    assert_eq!(stats.active_torrent_count, None);
    assert!(stats.cumulative_stats.is_none());
}

#[test]
fn session_stats_error_result_scenario() {
    let mut client = Client::new("http://localhost:9091/transmission/rpc");
    let mut stub = Stub::new(vec![reply(200, None, "{\"result\":\"error: duplicate\"}")]);
    let r = run(&mut client, &mut stub, RpcRequest::new(Method::SessionStats, None)).unwrap();
    match SessionStats::from_response(r) {
        Err(ClientError::BadResponse(m)) => assert_eq!(m, "error: duplicate"),
        other => panic!("unexpected {:?}", other),
    }
}

#[test]
fn success_without_arguments_is_no_arguments() {
    let mut client = Client::new("http://localhost:9091/transmission/rpc");
    let mut stub = Stub::new(vec![reply(200, None, "{\"result\":\"success\"}")]);
    let r = run(&mut client, &mut stub, RpcRequest::new(Method::SessionStats, None)).unwrap();
    assert!(matches!(value_from_response(r), Err(ClientError::NoArguments)));
}

#[test]
fn add_with_both_sources_fails_before_any_exchange() {
    let stub = Stub::new(vec![]);
    let mut args = TorrentAddArgs::from_meta(b"d4:infod4:name3:abcee").unwrap();
    args.filename = Some("magnet:?xt=urn:btih:6a0a9282c65fc6a1324e6e1605fe9bb9746c3aa8".to_string());
    let r = args.to_request();
    assert!(matches!(r, Err(ClientError::BothFileMeta)));
    assert_eq!(stub.sent.len(), 0);
}

#[test]
fn add_with_no_source_fails_before_any_exchange() {
    let stub = Stub::new(vec![]);
    let mut args = TorrentAddArgs::from_file("magnet:?xt=urn:btih:abc").unwrap();
    args.filename = None;
    assert!(matches!(args.to_request(), Err(ClientError::NoFileMeta)));
    assert_eq!(stub.sent.len(), 0);
}
