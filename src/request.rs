use vstd::prelude::*;

use crate::json::{json_bytes, members_view, push_member, Json, JsonV};

verus! {

/// The operations that the daemon answers.
#[derive(Clone, Copy, Debug, PartialEq, Eq, Structural)]
pub enum Method {
    SessionGet,
    SessionSet,
    SessionStats,
    BlocklistUpdate,
    PortTest,
    SessionClose,
    FreeSpace,
    TorrentStart,
    TorrentStartNow,
    TorrentStop,
    TorrentVerify,
    TorrentReannounce,
    TorrentSet,
    TorrentGet,
    TorrentAdd,
    TorrentRemove,
    TorrentSetLocation,
    TorrentRenamePath,
    QueueMoveTop,
    QueueMoveUp,
    QueueMoveDown,
    QueueMoveBottom,
}

impl Method {
    /// The name of the operation on the wire.
    pub open spec fn spec_name(self) -> Seq<char> {
        match self {
            Method::SessionGet => "session-get"@,
            Method::SessionSet => "session-set"@,
            Method::SessionStats => "session-stats"@,
            Method::BlocklistUpdate => "blocklist-update"@,
            Method::PortTest => "port-test"@,
            Method::SessionClose => "session-close"@,
            Method::FreeSpace => "free-space"@,
            Method::TorrentStart => "torrent-start"@,
            Method::TorrentStartNow => "torrent-start-now"@,
            Method::TorrentStop => "torrent-stop"@,
            Method::TorrentVerify => "torrent-verify"@,
            Method::TorrentReannounce => "torrent-reannounce"@,
            Method::TorrentSet => "torrent-set"@,
            Method::TorrentGet => "torrent-get"@,
            Method::TorrentAdd => "torrent-add"@,
            Method::TorrentRemove => "torrent-remove"@,
            Method::TorrentSetLocation => "torrent-set-location"@,
            Method::TorrentRenamePath => "torrent-rename-path"@,
            Method::QueueMoveTop => "queue-move-top"@,
            Method::QueueMoveUp => "queue-move-up"@,
            Method::QueueMoveDown => "queue-move-down"@,
            Method::QueueMoveBottom => "queue-move-bottom"@,
        }
    }

    pub fn name(&self) -> (r: &'static str)
        ensures
            r@ == self.spec_name(),
    {
        match self {
            Method::SessionGet => "session-get",
            Method::SessionSet => "session-set",
            Method::SessionStats => "session-stats",
            Method::BlocklistUpdate => "blocklist-update",
            Method::PortTest => "port-test",
            Method::SessionClose => "session-close",
            Method::FreeSpace => "free-space",
            Method::TorrentStart => "torrent-start",
            Method::TorrentStartNow => "torrent-start-now",
            Method::TorrentStop => "torrent-stop",
            Method::TorrentVerify => "torrent-verify",
            Method::TorrentReannounce => "torrent-reannounce",
            Method::TorrentSet => "torrent-set",
            Method::TorrentGet => "torrent-get",
            Method::TorrentAdd => "torrent-add",
            Method::TorrentRemove => "torrent-remove",
            Method::TorrentSetLocation => "torrent-set-location",
            Method::TorrentRenamePath => "torrent-rename-path",
            Method::QueueMoveTop => "queue-move-top",
            Method::QueueMoveUp => "queue-move-up",
            Method::QueueMoveDown => "queue-move-down",
            Method::QueueMoveBottom => "queue-move-bottom",
        }
    }
}

/// One torrent, by its numeric id or by its hash string.
#[derive(Debug)]
pub enum Id {
    Id(i64),
    Hash(String),
}

pub enum IdV {
    Id(int),
    Hash(Seq<char>),
}

impl View for Id {
    type V = IdV;

    open spec fn view(&self) -> IdV {
        match self {
            Id::Id(n) => IdV::Id(*n as int),
            Id::Hash(h) => IdV::Hash(h@),
        }
    }
}

/// The JSON form of an id: a number, or a string for a hash.
pub open spec fn id_json(v: IdV) -> JsonV {
    match v {
        IdV::Id(n) => JsonV::Int(n),
        IdV::Hash(h) => JsonV::Str(h),
    }
}

impl Id {
    pub fn to_json(&self) -> (r: Json)
        ensures
            r@ == id_json(self@),
    {
        match self {
            Id::Id(n) => Json::Int(*n),
            Id::Hash(h) => Json::Str(h.clone()),
        }
    }
}

impl From<i64> for Id {
    fn from(id: i64) -> (r: Id) {
        Id::Id(id)
    }
}

impl vstd::std_specs::convert::FromSpecImpl<i64> for Id {
    open spec fn obeys_from_spec() -> bool {
        true
    }

    open spec fn from_spec(v: i64) -> Id {
        Id::Id(v)
    }
}

impl From<String> for Id {
    fn from(hash: String) -> (r: Id) {
        Id::Hash(hash)
    }
}

impl vstd::std_specs::convert::FromSpecImpl<String> for Id {
    open spec fn obeys_from_spec() -> bool {
        true
    }

    open spec fn from_spec(v: String) -> Id {
        Id::Hash(v)
    }
}

impl From<&str> for Id {
    fn from(hash: &str) -> (r: Id)
        ensures
            r@ == IdV::Hash(hash@),
    {
        Id::Hash(hash.to_string())
    }
}

impl vstd::std_specs::convert::FromSpecImpl<&str> for Id {
    /// A `String` is not made in spec code: `from`'s own `ensures` gives the view instead.
    open spec fn obeys_from_spec() -> bool {
        false
    }

    open spec fn from_spec(v: &str) -> Id {
        arbitrary()
    }
}

/// The torrents that a request addresses.
#[derive(Debug)]
pub enum Ids {
    /// One torrent; written as a bare number.
    Id(i64),
    /// A list of torrents; written as an array, even with one element.
    Array(Vec<Id>),
    /// The torrents that were active lately.
    RecentlyActive,
}

pub enum IdsV {
    Id(int),
    Array(Seq<IdV>),
    RecentlyActive,
}

impl View for Ids {
    type V = IdsV;

    open spec fn view(&self) -> IdsV {
        match self {
            Ids::Id(n) => IdsV::Id(*n as int),
            Ids::Array(v) => IdsV::Array(v@.map_values(|x: Id| x@)),
            Ids::RecentlyActive => IdsV::RecentlyActive,
        }
    }
}

/// The JSON form of an id set: a bare number for one id, an array of the ids' forms for a
/// list, and the string `recently-active` for the lately active torrents.
pub open spec fn ids_json(v: IdsV) -> JsonV {
    match v {
        IdsV::Id(n) => JsonV::Int(n),
        IdsV::Array(s) => JsonV::Array(s.map_values(|x: IdV| id_json(x))),
        IdsV::RecentlyActive => JsonV::Str("recently-active"@),
    }
}

/// Each form of an id set has its own JSON shape: a bare integer for one id, an array of the
/// same length holding each id's form for a list, the string `recently-active` for the lately
/// active torrents.
pub proof fn lemma_ids_forms(v: IdsV)
    ensures
        v matches IdsV::Id(n) ==> ids_json(v) == JsonV::Int(n),
        v matches IdsV::Array(s) ==> (ids_json(v) matches JsonV::Array(a) && a.len() == s.len()
            && forall|i: int| 0 <= i < s.len() ==> a[i] == id_json(s[i])),
        v is RecentlyActive ==> ids_json(v) == JsonV::Str("recently-active"@),
{
}

/// One id and the list that holds only that id are written differently.
pub proof fn lemma_single_id_is_not_a_list(n: int)
    ensures
        ids_json(IdsV::Id(n)) != ids_json(IdsV::Array(seq![IdV::Id(n)])),
{
}

impl Ids {
    pub fn to_json(&self) -> (r: Json)
        ensures
            r@ == ids_json(self@),
    {
        match self {
            Ids::Id(n) => Json::Int(*n),
            Ids::Array(v) => {
                let mut out: Vec<Json> = Vec::new();
                let mut i: usize = 0;
                while i < v.len()
                    invariant
                        0 <= i <= v.len(),
                        out@.len() == i,
                        forall|k: int| 0 <= k < i ==> (#[trigger] out@[k])@ == id_json(v@[k]@),
                    decreases v.len() - i,
                {
                    out.push(v[i].to_json());
                    i = i + 1;
                }
                let r = Json::Array(out);
                assert(match r@ {
                    JsonV::Array(s) => s =~= v@.map_values(|x: Id| x@).map_values(|x: IdV| id_json(x)),
                    _ => false,
                });
                r
            },
            Ids::RecentlyActive => Json::Str("recently-active".to_string()),
        }
    }
}

impl Default for Ids {
    fn default() -> (r: Ids)
        ensures
            r == Ids::RecentlyActive,
    {
        Ids::RecentlyActive
    }
}

impl From<i64> for Ids {
    fn from(id: i64) -> (r: Ids) {
        Ids::Id(id)
    }
}

impl vstd::std_specs::convert::FromSpecImpl<i64> for Ids {
    open spec fn obeys_from_spec() -> bool {
        true
    }

    open spec fn from_spec(v: i64) -> Ids {
        Ids::Id(v)
    }
}

impl From<Vec<Id>> for Ids {
    fn from(values: Vec<Id>) -> (r: Ids) {
        Ids::Array(values)
    }
}

impl vstd::std_specs::convert::FromSpecImpl<Vec<Id>> for Ids {
    open spec fn obeys_from_spec() -> bool {
        true
    }

    open spec fn from_spec(v: Vec<Id>) -> Ids {
        Ids::Array(v)
    }
}

/// A request envelope: an operation, its arguments, and a tag that the answer echoes.
#[derive(Debug)]
pub struct RpcRequest {
    pub method: Method,
    pub arguments: Option<Json>,
    pub tag: Option<Ids>,
}

/// The JSON object of a request: `method` first, then `arguments` and `tag` where present;
/// a member that is absent is left out rather than written as null.
pub open spec fn request_json(method: Method, arguments: Option<JsonV>, tag: Option<IdsV>) -> JsonV {
    let m = seq![("method"@, JsonV::Str(method.spec_name()))];
    let m = match arguments {
        Some(a) => m.push(("arguments"@, a)),
        None => m,
    };
    let m = match tag {
        Some(t) => m.push(("tag"@, ids_json(t))),
        None => m,
    };
    JsonV::Object(m)
}

impl RpcRequest {
    pub open spec fn spec_json(&self) -> JsonV {
        request_json(
            self.method,
            match self.arguments {
                Some(a) => Some(a@),
                None => None,
            },
            match self.tag {
                Some(t) => Some(t@),
                None => None,
            },
        )
    }

    /// A request with no tag.
    pub fn new(method: Method, arguments: Option<Json>) -> (r: RpcRequest)
        ensures
            r.method == method,
            r.arguments == arguments,
            r.tag is None,
    {
        RpcRequest { method, arguments, tag: None }
    }

    /// A request whose arguments are an id set, where there is one.
    pub fn with_ids(method: Method, ids: Option<Ids>) -> (r: RpcRequest)
        ensures
            r.method == method,
            r.tag is None,
            ids is None ==> r.arguments is None,
            ids matches Some(i) ==> (r.arguments matches Some(a) && a@ == ids_json(i@)),
    {
        match ids {
            Some(i) => RpcRequest::new(method, Some(i.to_json())),
            None => RpcRequest::new(method, None),
        }
    }

    /// The request that asks how much space is free under `path`: `{"path": ...}`.
    pub fn free_space(path: &str) -> (r: RpcRequest)
        ensures
            r.method == Method::FreeSpace,
            r.tag is None,
            r.arguments matches Some(a) && a@ == JsonV::Object(seq![("path"@, JsonV::Str(path@))]),
    {
        let mut m: Vec<(String, Json)> = Vec::new();
        assert(members_view(&m) =~= Seq::empty());
        push_member(&mut m, "path", Json::Str(path.to_string()));
        let a = Json::Object(m);
        assert(members_view(&m) =~= seq![("path"@, JsonV::Str(path@))]);
        RpcRequest::new(Method::FreeSpace, Some(a))
    }

    pub fn to_json(self) -> (r: Json)
        ensures
            r@ == self.spec_json(),
    {
        let ghost expected = self.spec_json();
        let mut m: Vec<(String, Json)> = Vec::new();
        assert(members_view(&m) =~= Seq::empty());
        push_member(&mut m, "method", Json::Str(self.method.name().to_string()));
        match self.arguments {
            Some(a) => push_member(&mut m, "arguments", a),
            None => {},
        }
        match self.tag {
            Some(t) => push_member(&mut m, "tag", t.to_json()),
            None => {},
        }
        let r = Json::Object(m);
        assert(members_view(&m) =~= match expected {
            JsonV::Object(e) => e,
            _ => Seq::empty(),
        });
        r
    }

    /// The bytes of the request as they go on the wire.
    pub fn encode(self) -> (r: Vec<u8>)
        ensures
            r@ == json_bytes(self.spec_json()),
    {
        let j = self.to_json();
        j.to_bytes()
    }
}

} // verus!
