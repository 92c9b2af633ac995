use trpc::json::Json;
use trpc::request::{Id, Ids, Method, RpcRequest};
use trpc::response::{
    decode_response, status_from_response, value_from_response, BlocklistUpdate, FreeSpace,
    PortTest,
};
use trpc::session::{session_get_request, session_set_request, SessionFields, SessionGetArgs};
use trpc::torrent::{
    metadata_of, TorrentAdd, TorrentAddArgs, TorrentFields, TorrentGetArgs, TorrentRemoveArgs,
    TorrentRenamePath, TorrentRenamePathArgs, TorrentSetLocationArgs,
};
use trpc::ClientError;

fn value(text: &str) -> serde_json::Value {
    serde_json::from_str(text).unwrap()
}

fn json_value(j: &Json) -> serde_json::Value {
    serde_json::from_slice(&j.to_bytes()).unwrap()
}

fn parse(text: &str) -> Json {
    Json::parse(text.as_bytes()).unwrap()
}

#[test]
fn single_id_is_a_bare_integer() {
    assert!(matches!(Ids::Id(7).to_json(), Json::Int(7)));
    assert_eq!(json_value(&Ids::Id(7).to_json()), value("7"));
}

#[test]
fn id_list_is_an_array_even_with_one_element() {
    assert_eq!(json_value(&Ids::Array(vec![Id::Id(7)]).to_json()), value("[7]"));
    let ids: Ids = vec![Id::from(1), Id::from("6a0a9282"), Id::from("abc".to_string())].into();
    assert_eq!(json_value(&ids.to_json()), value("[1,\"6a0a9282\",\"abc\"]"));
}

#[test]
fn recently_active_is_a_string() {
    assert_eq!(json_value(&Ids::RecentlyActive.to_json()), value("\"recently-active\""));
    assert!(matches!(Ids::default(), Ids::RecentlyActive));
    assert!(matches!(Ids::from(3), Ids::Id(3)));
}

#[test]
fn envelope_leaves_out_absent_members() {
    let bytes = RpcRequest::new(Method::SessionGet, None).encode();
    assert_eq!(serde_json::from_slice::<serde_json::Value>(&bytes).unwrap(), value("{\"method\":\"session-get\"}"));
    let request = RpcRequest {
        method: Method::QueueMoveTop,
        arguments: Some(Ids::Array(vec![Id::Id(1), Id::Id(2)]).to_json()),
        tag: Some(Ids::RecentlyActive),
    };
    let bytes = request.encode();
    assert_eq!(
        serde_json::from_slice::<serde_json::Value>(&bytes).unwrap(),
        value("{\"method\":\"queue-move-top\",\"arguments\":[1,2],\"tag\":\"recently-active\"}")
    );
}

#[test]
fn method_names_are_kebab_case() {
    assert_eq!(Method::TorrentSetLocation.name(), "torrent-set-location");
    assert_eq!(Method::SessionStats.name(), "session-stats");
    assert_eq!(Method::QueueMoveBottom.name(), "queue-move-bottom");
}

#[test]
fn with_ids_request() {
    let r = RpcRequest::with_ids(Method::TorrentStop, Some(Ids::Id(9)));
    assert_eq!(json_value(&r.to_json()), value("{\"method\":\"torrent-stop\",\"arguments\":9}"));
    let r = RpcRequest::with_ids(Method::TorrentStop, None);
    assert!(r.arguments.is_none());
}

#[test]
fn free_space_request() {
    let r = RpcRequest::free_space("/data");
    assert_eq!(
        json_value(&r.to_json()),
        value("{\"method\":\"free-space\",\"arguments\":{\"path\":\"/data\"}}")
    );
}

#[test]
fn decode_full_envelope() {
    let r = decode_response(b"{\"result\":\"success\",\"arguments\":{\"a\":1.5},\"tag\":12}").unwrap();
    assert_eq!(r.result, "success");
    assert_eq!(r.tag, Some(12));
    assert_eq!(json_value(r.arguments.as_ref().unwrap()), value("{\"a\":1.5}"));
}

#[test]
fn decode_null_members_are_absent() {
    let r = decode_response(b"{\"result\":\"x\",\"arguments\":null,\"tag\":null}").unwrap();
    assert!(r.arguments.is_none());
    assert!(r.tag.is_none());
}

#[test]
fn decode_errors_name_the_member() {
    assert!(matches!(decode_response(b"[1]"), Err(ClientError::Decode(k)) if k.is_empty()));
    assert!(matches!(decode_response(b"{\"result\":1}"), Err(ClientError::Decode(k)) if k == "result"));
    assert!(matches!(decode_response(b"{\"arguments\":{}}"), Err(ClientError::Decode(k)) if k == "result"));
    assert!(
        matches!(decode_response(b"{\"result\":\"success\",\"tag\":\"t\"}"), Err(ClientError::Decode(k)) if k == "tag")
    );
    assert!(matches!(decode_response(b"{\"result\""), Err(ClientError::Json(_))));
}

#[test]
fn classification() {
    let r = decode_response(b"{\"result\":\"success\",\"arguments\":{\"x\":1}}").unwrap();
    assert_eq!(json_value(&value_from_response(r).unwrap()), value("{\"x\":1}"));
    let r = decode_response(b"{\"result\":\"no such method\",\"arguments\":{}}").unwrap();
    assert!(matches!(value_from_response(r), Err(ClientError::BadResponse(m)) if m == "no such method"));
    let r = decode_response(b"{\"result\":\"success\"}").unwrap();
    assert!(status_from_response(r).is_ok());
    let r = decode_response(b"{\"result\":\"fail\"}").unwrap();
    assert!(matches!(status_from_response(r), Err(ClientError::BadResponse(m)) if m == "fail"));
}

#[test]
fn small_results() {
    let r = decode_response(b"{\"result\":\"success\",\"arguments\":{\"port-is-open\":true}}").unwrap();
    assert_eq!(PortTest::from_response(r).unwrap(), PortTest { port_is_open: true });
    let r = decode_response(b"{\"result\":\"success\",\"arguments\":{\"blocklist-size\":421}}").unwrap();
    assert_eq!(BlocklistUpdate::from_response(r).unwrap().blocklist_size, 421);
    let r = decode_response(b"{\"result\":\"success\",\"arguments\":{\"path\":\"/d\",\"size-bytes\":1024}}").unwrap();
    let f = FreeSpace::from_response(r).unwrap();
    assert_eq!(f.path, "/d");
    assert_eq!(f.size_bytes, 1024);
    let r = decode_response(b"{\"result\":\"success\",\"arguments\":{\"port-is-open\":1}}").unwrap();
    assert!(matches!(PortTest::from_response(r), Err(ClientError::Decode(k)) if k == "port-is-open"));
}

#[test]
fn torrent_add_result() {
    let r = decode_response(
        b"{\"result\":\"success\",\"arguments\":{\"torrent-duplicate\":{\"hashString\":\"ab\",\"id\":5,\"name\":\"n\"}}}",
    )
    .unwrap();
    let a = TorrentAdd::from_response(r).unwrap();
    assert!(a.torrent.is_none());
    let d = a.torrent_duplicate.unwrap();
    assert_eq!((d.hash_string.as_str(), d.id, d.name.as_str()), ("ab", 5, "n"));
    let r = decode_response(b"{\"result\":\"success\",\"arguments\":{\"torrent\":{\"id\":5}}}").unwrap();
    assert!(matches!(TorrentAdd::from_response(r), Err(ClientError::Decode(k)) if k == "hashString"));
}

#[test]
fn torrent_rename_result() {
    let j = parse("{\"id\":2,\"name\":\"new\",\"path\":\"old\"}");
    let r = TorrentRenamePath::from_json(&j).unwrap();
    assert_eq!((r.id, r.name.as_str(), r.path.as_str()), (2, "new", "old"));
}

#[test]
fn torrent_fields_from_names() {
    assert_eq!(TorrentFields::try_from("HashString").unwrap(), TorrentFields::HashString);
    assert_eq!(TorrentFields::try_from("ID").unwrap(), TorrentFields::Id);
    assert_eq!(TorrentFields::try_from("file-count").unwrap(), TorrentFields::FileCount);
    assert!(matches!(TorrentFields::try_from("colour"), Err(ClientError::UnknownTorrentFields)));
    assert_eq!(TorrentFields::FileCount.name(), "file-count");
    assert_eq!(TorrentFields::HashString.name(), "hashString");
}

#[test]
fn torrent_get_arguments() {
    let args = TorrentGetArgs {
        ids: Some(vec!["6a0a9282c65fc6a1324e6e1605fe9bb9746c3aa8".into()].into()),
        fields: vec!["id".try_into().unwrap(), "hashstring".try_into().unwrap()],
    };
    assert_eq!(
        json_value(&args.to_json()),
        value("{\"ids\":[\"6a0a9282c65fc6a1324e6e1605fe9bb9746c3aa8\"],\"fields\":[\"id\",\"hashString\"]}")
    );
    let r = TorrentGetArgs::default().to_request();
    assert_eq!(json_value(&r.to_json()), value("{\"method\":\"torrent-get\",\"arguments\":{\"fields\":[]}}"));
}

#[test]
fn torrent_add_arguments() {
    let args = TorrentAddArgs::from_meta(b"hello").unwrap();
    assert_eq!(args.metainfo.as_deref(), Some("aGVsbG8="));
    assert_eq!(metadata_of(b"hi!?"), "aGkhPw==");
    let mut args = TorrentAddArgs::from_file("http://x/t.torrent").unwrap();
    args.paused = Some(true);
    args.bandwidth_priority = Some(1);
    args.download_dir = Some("/dl".to_string());
    let r = args.to_request().unwrap();
    assert_eq!(r.method, Method::TorrentAdd);
    assert_eq!(
        json_value(r.arguments.as_ref().unwrap()),
        value("{\"download-dir\":\"/dl\",\"filename\":\"http://x/t.torrent\",\"paused\":true,\"bandwidthPriority\":1}")
    );
}

#[test]
fn other_torrent_arguments() {
    let a = TorrentRemoveArgs { ids: Ids::Id(1), delete_local_data: true };
    assert_eq!(json_value(&a.to_json()), value("{\"ids\":1,\"delete-local-data\":true}"));
    assert_eq!(a.to_request().method, Method::TorrentRemove);
    let a = TorrentSetLocationArgs { ids: Ids::Id(1), location: "/m".to_string(), move_local_data: false };
    assert_eq!(json_value(&a.to_json()), value("{\"ids\":1,\"location\":\"/m\",\"move\":false}"));
    let a = TorrentRenamePathArgs { ids: Ids::Id(1), path: "a".to_string(), name: "b".to_string() };
    assert_eq!(json_value(&a.to_json()), value("{\"ids\":1,\"path\":\"a\",\"name\":\"b\"}"));
    assert_eq!(a.to_request().method, Method::TorrentRenamePath);
}

#[test]
fn session_get_arguments() {
    let args = SessionGetArgs { fields: vec![SessionFields::SessionID, SessionFields::SeedRatioLimit, SessionFields::AltSpeedDown] };
    let r = session_get_request(Some(args));
    assert_eq!(
        json_value(r.arguments.as_ref().unwrap()),
        value("{\"fields\":[\"session-id\",\"seedRatioLimit\",\"alt-speed-down\"]}")
    );
    assert!(session_get_request(None).arguments.is_none());
    assert!(SessionFields::Version.is_read_only());
    assert!(!SessionFields::DownloadDir.is_read_only());
}

#[test]
fn session_set_refuses_read_only_settings() {
    let r = session_set_request(parse("{\"speed-limit-down\":100,\"version\":true}"));
    assert!(matches!(r, Err(ClientError::WrongSessionSetFields)));
    let r = session_set_request(parse("{\"speed-limit-down\":100}")).unwrap();
    assert_eq!(r.method, Method::SessionSet);
}
