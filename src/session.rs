use vstd::prelude::*;

use crate::error::ClientError;
use crate::json::{
    get, lookup, members, members_view, object_members, opt_int_field, opt_int_member, push_member,
    str_eq, Json, JsonV,
};
use crate::request::{Method, RpcRequest};
use crate::response::{classification_error, classified, value_from_response, RpcResponse};

verus! {

/// The settings of a session.
#[derive(Clone, Copy, Debug, PartialEq, Eq, Structural)]
pub enum SessionFields {
    AltSpeedDown,
    AltSpeedEnabled,
    AltSpeedTimeBegin,
    AltSpeedTimeEnabled,
    AltSpeedTimeEnd,
    AltSpeedTimeDay,
    AltSpeedUp,
    BlocklistUrl,
    BlocklistEnabled,
    BlocklistSize,
    CacheSizeMb,
    ConfigDir,
    DownloadDir,
    DownloadQueueSize,
    DownloadQueueEnabled,
    DhtEnabled,
    Encryption,
    IdleSeedingLimit,
    IdleSeedingLimitEnabled,
    IncompleteDir,
    IncompleteDirEnabled,
    LpdEnabled,
    PeerLimitGlobal,
    PeerLimitPerTorrent,
    PexEnabled,
    PeerPort,
    PeerPortRandomOnStart,
    PortForwardingEnabled,
    QueueStalledEnabled,
    QueueStalledMinutes,
    RenamePartialFiles,
    RpcVersion,
    RpcVersionMinimum,
    ScriptTorrentDoneFilename,
    ScriptTorrentDoneEnabled,
    SeedRatioLimit,
    SeedRatioLimited,
    SeedQueueSize,
    SeedQueueEnabled,
    SessionID,
    SpeedLimitDown,
    SpeedLimitDownEnabled,
    SpeedLimitUp,
    SpeedLimitUpEnabled,
    StartAddedTorrents,
    TrashOriginalTorrentFiles,
    Units,
    UtpEnabled,
    Version,
}

impl SessionFields {
    /// The name of the setting on the wire.
    pub open spec fn spec_name(self) -> Seq<char> {
        match self {
            SessionFields::AltSpeedDown => "alt-speed-down"@,
            SessionFields::AltSpeedEnabled => "alt-speed-enabled"@,
            SessionFields::AltSpeedTimeBegin => "alt-speed-time-begin"@,
            SessionFields::AltSpeedTimeEnabled => "alt-speed-time-enabled"@,
            SessionFields::AltSpeedTimeEnd => "alt-speed-time-end"@,
            SessionFields::AltSpeedTimeDay => "alt-speed-time-day"@,
            SessionFields::AltSpeedUp => "alt-speed-up"@,
            SessionFields::BlocklistUrl => "blocklist-url"@,
            SessionFields::BlocklistEnabled => "blocklist-enabled"@,
            SessionFields::BlocklistSize => "blocklist-size"@,
            SessionFields::CacheSizeMb => "cache-size-mb"@,
            SessionFields::ConfigDir => "config-dir"@,
            SessionFields::DownloadDir => "download-dir"@,
            SessionFields::DownloadQueueSize => "download-queue-size"@,
            SessionFields::DownloadQueueEnabled => "download-queue-enabled"@,
            SessionFields::DhtEnabled => "dht-enabled"@,
            SessionFields::Encryption => "encryption"@,
            SessionFields::IdleSeedingLimit => "idle-seeding-limit"@,
            SessionFields::IdleSeedingLimitEnabled => "idle-seeding-limit-enabled"@,
            SessionFields::IncompleteDir => "incomplete-dir"@,
            SessionFields::IncompleteDirEnabled => "incomplete-dir-enabled"@,
            SessionFields::LpdEnabled => "lpd-enabled"@,
            SessionFields::PeerLimitGlobal => "peer-limit-global"@,
            SessionFields::PeerLimitPerTorrent => "peer-limit-per-torrent"@,
            SessionFields::PexEnabled => "pex-enabled"@,
            SessionFields::PeerPort => "peer-port"@,
            SessionFields::PeerPortRandomOnStart => "peer-port-random-on-start"@,
            SessionFields::PortForwardingEnabled => "port-forwarding-enabled"@,
            SessionFields::QueueStalledEnabled => "queue-stalled-enabled"@,
            SessionFields::QueueStalledMinutes => "queue-stalled-minutes"@,
            SessionFields::RenamePartialFiles => "rename-partial-files"@,
            SessionFields::RpcVersion => "rpc-version"@,
            SessionFields::RpcVersionMinimum => "rpc-version-minimum"@,
            SessionFields::ScriptTorrentDoneFilename => "script-torrent-done-filename"@,
            SessionFields::ScriptTorrentDoneEnabled => "script-torrent-done-enabled"@,
            SessionFields::SeedRatioLimit => "seedRatioLimit"@,
            SessionFields::SeedRatioLimited => "seedRatioLimited"@,
            SessionFields::SeedQueueSize => "seed-queue-size"@,
            SessionFields::SeedQueueEnabled => "seed-queue-enabled"@,
            SessionFields::SessionID => "session-id"@,
            SessionFields::SpeedLimitDown => "speed-limit-down"@,
            SessionFields::SpeedLimitDownEnabled => "speed-limit-down-enabled"@,
            SessionFields::SpeedLimitUp => "speed-limit-up"@,
            SessionFields::SpeedLimitUpEnabled => "speed-limit-up-enabled"@,
            SessionFields::StartAddedTorrents => "start-added-torrents"@,
            SessionFields::TrashOriginalTorrentFiles => "trash-original-torrent-files"@,
            SessionFields::Units => "units"@,
            SessionFields::UtpEnabled => "utp-enabled"@,
            SessionFields::Version => "version"@,
        }
    }

    pub fn name(&self) -> (r: &'static str)
        ensures
            r@ == self.spec_name(),
    {
        match self {
            SessionFields::AltSpeedDown => "alt-speed-down",
            SessionFields::AltSpeedEnabled => "alt-speed-enabled",
            SessionFields::AltSpeedTimeBegin => "alt-speed-time-begin",
            SessionFields::AltSpeedTimeEnabled => "alt-speed-time-enabled",
            SessionFields::AltSpeedTimeEnd => "alt-speed-time-end",
            SessionFields::AltSpeedTimeDay => "alt-speed-time-day",
            SessionFields::AltSpeedUp => "alt-speed-up",
            SessionFields::BlocklistUrl => "blocklist-url",
            SessionFields::BlocklistEnabled => "blocklist-enabled",
            SessionFields::BlocklistSize => "blocklist-size",
            SessionFields::CacheSizeMb => "cache-size-mb",
            SessionFields::ConfigDir => "config-dir",
            SessionFields::DownloadDir => "download-dir",
            SessionFields::DownloadQueueSize => "download-queue-size",
            SessionFields::DownloadQueueEnabled => "download-queue-enabled",
            SessionFields::DhtEnabled => "dht-enabled",
            SessionFields::Encryption => "encryption",
            SessionFields::IdleSeedingLimit => "idle-seeding-limit",
            SessionFields::IdleSeedingLimitEnabled => "idle-seeding-limit-enabled",
            SessionFields::IncompleteDir => "incomplete-dir",
            SessionFields::IncompleteDirEnabled => "incomplete-dir-enabled",
            SessionFields::LpdEnabled => "lpd-enabled",
            SessionFields::PeerLimitGlobal => "peer-limit-global",
            SessionFields::PeerLimitPerTorrent => "peer-limit-per-torrent",
            SessionFields::PexEnabled => "pex-enabled",
            SessionFields::PeerPort => "peer-port",
            SessionFields::PeerPortRandomOnStart => "peer-port-random-on-start",
            SessionFields::PortForwardingEnabled => "port-forwarding-enabled",
            SessionFields::QueueStalledEnabled => "queue-stalled-enabled",
            SessionFields::QueueStalledMinutes => "queue-stalled-minutes",
            SessionFields::RenamePartialFiles => "rename-partial-files",
            SessionFields::RpcVersion => "rpc-version",
            SessionFields::RpcVersionMinimum => "rpc-version-minimum",
            SessionFields::ScriptTorrentDoneFilename => "script-torrent-done-filename",
            SessionFields::ScriptTorrentDoneEnabled => "script-torrent-done-enabled",
            SessionFields::SeedRatioLimit => "seedRatioLimit",
            SessionFields::SeedRatioLimited => "seedRatioLimited",
            SessionFields::SeedQueueSize => "seed-queue-size",
            SessionFields::SeedQueueEnabled => "seed-queue-enabled",
            SessionFields::SessionID => "session-id",
            SessionFields::SpeedLimitDown => "speed-limit-down",
            SessionFields::SpeedLimitDownEnabled => "speed-limit-down-enabled",
            SessionFields::SpeedLimitUp => "speed-limit-up",
            SessionFields::SpeedLimitUpEnabled => "speed-limit-up-enabled",
            SessionFields::StartAddedTorrents => "start-added-torrents",
            SessionFields::TrashOriginalTorrentFiles => "trash-original-torrent-files",
            SessionFields::Units => "units",
            SessionFields::UtpEnabled => "utp-enabled",
            SessionFields::Version => "version",
        }
    }

    /// Whether the daemon reports the setting but does not let a client change it.
    pub open spec fn spec_is_read_only(self) -> bool {
        matches!(self, SessionFields::BlocklistSize | SessionFields::ConfigDir | SessionFields::RpcVersion | SessionFields::RpcVersionMinimum | SessionFields::Version | SessionFields::SessionID)
    }

    pub fn is_read_only(&self) -> (r: bool)
        ensures
            r == self.spec_is_read_only(),
    {
        matches!(self, SessionFields::BlocklistSize | SessionFields::ConfigDir | SessionFields::RpcVersion | SessionFields::RpcVersionMinimum | SessionFields::Version | SessionFields::SessionID)
    }
}

/// Whether a member name is that of a setting that a client may not change.
pub open spec fn is_read_only_key(k: Seq<char>) -> bool {
    k == "blocklist-size"@ || k == "config-dir"@ || k == "rpc-version"@ || k == "rpc-version-minimum"@ || k == "version"@ || k == "session-id"@
}

/// Whether some member of an object names a setting that a client may not change.
pub open spec fn has_read_only_member(m: Seq<(Seq<char>, JsonV)>) -> bool {
    exists|i: int| 0 <= i < m.len() && #[trigger] is_read_only_key(m[i].0)
}

fn read_only_key(k: &str) -> (r: bool)
    ensures
        r == is_read_only_key(k@),
{
    str_eq(k, "blocklist-size") || str_eq(k, "config-dir") || str_eq(k, "rpc-version") || str_eq(k, "rpc-version-minimum") || str_eq(k, "version") || str_eq(k, "session-id")
}

/// The request that changes settings of the session, given as the members of `arguments`.
/// It is refused, before anything is sent, where a member names a setting that the daemon
/// does not let a client change.
pub fn session_set_request(arguments: Json) -> (r: Result<RpcRequest, ClientError>)
    ensures
        (members(arguments@) matches Some(m) && has_read_only_member(m)) ==> r matches Err(
            ClientError::WrongSessionSetFields,
        ),
        !(members(arguments@) matches Some(m) && has_read_only_member(m)) ==> (r matches Ok(req)
            && req.method == Method::SessionSet && req.tag is None && (req.arguments matches Some(a)
            && a@ == arguments@)),
{
    match &arguments {
        Json::Object(m) => {
            let ghost mv = members_view(m);
            let mut i: usize = 0;
            assert(members(arguments@) == Some(mv));
            while i < m.len()
                invariant
                    0 <= i <= m.len(),
                    mv == members_view(m),
                    members(arguments@) == Some(mv),
                    forall|k: int| 0 <= k < i ==> !is_read_only_key(#[trigger] mv[k].0),
                decreases m.len() - i,
            {
                if read_only_key(m[i].0.as_str()) {
                    assert(is_read_only_key(mv[i as int].0));
                    assert(has_read_only_member(mv));
                    return Err(ClientError::WrongSessionSetFields);
                }
                i = i + 1;
            }
        },
        _ => {},
    }
    Ok(RpcRequest::new(Method::SessionSet, Some(arguments)))
}

/// Which settings a session-get request asks for.
#[derive(Debug)]
pub struct SessionGetArgs {
    pub fields: Vec<SessionFields>,
}

impl Default for SessionGetArgs {
    fn default() -> (r: SessionGetArgs)
        ensures
            r.fields@.len() == 0,
    {
        SessionGetArgs { fields: Vec::new() }
    }
}

impl SessionGetArgs {
    /// `{"fields": [...]}`, the names of the settings.
    pub open spec fn spec_json(&self) -> JsonV {
        JsonV::Object(
            seq![
                ("fields"@, JsonV::Array(
                    self.fields@.map_values(|f: SessionFields| JsonV::Str(f.spec_name())),
                )),
            ],
        )
    }

    pub fn to_json(&self) -> (r: Json)
        ensures
            r@ == self.spec_json(),
    {
        let mut out: Vec<Json> = Vec::new();
        let mut i: usize = 0;
        while i < self.fields.len()
            invariant
                0 <= i <= self.fields.len(),
                out@.len() == i,
                forall|k: int|
                    0 <= k < i ==> (#[trigger] out@[k])@ == JsonV::Str(self.fields@[k].spec_name()),
            decreases self.fields.len() - i,
        {
            out.push(Json::Str(self.fields[i].name().to_string()));
            i = i + 1;
        }
        let names = Json::Array(out);
        assert(match names@ {
            JsonV::Array(s) => s =~= self.fields@.map_values(
                |f: SessionFields| JsonV::Str(f.spec_name()),
            ),
            _ => false,
        });
        let mut m: Vec<(String, Json)> = Vec::new();
        assert(members_view(&m) =~= Seq::empty());
        push_member(&mut m, "fields", names);
        let r = Json::Object(m);
        assert(members_view(&m) =~= seq![("fields"@, names@)]);
        r
    }
}

/// The request that reads settings: the ones `args` names, or all where there are no `args`.
pub fn session_get_request(args: Option<SessionGetArgs>) -> (r: RpcRequest)
    ensures
        r.method == Method::SessionGet,
        r.tag is None,
        args is None ==> r.arguments is None,
        args matches Some(a) ==> (r.arguments matches Some(j) && j@ == a.spec_json()),
{
    match args {
        Some(a) => RpcRequest::new(Method::SessionGet, Some(a.to_json())),
        None => RpcRequest::new(Method::SessionGet, None),
    }
}

pub open spec fn to_i64(v: Option<int>) -> Option<i64> {
    match v {
        Some(n) => Some(n as i64),
        None => None,
    }
}

/// Counters of transfers, each of which the daemon may leave out.
#[derive(Clone, Copy, Debug, PartialEq, Eq, Structural)]
pub struct Stats {
    pub uploaded_bytes: Option<i64>,
    pub downloaded_bytes: Option<i64>,
    pub files_added: Option<i64>,
    pub session_count: Option<i64>,
    pub seconds_active: Option<i64>,
}

/// An object whose members `uploadedBytes`, `downloadedBytes`, `filesAdded`, `sessionCount`
/// and `secondsActive` are each absent, null or an integer.
pub open spec fn stats_of(v: JsonV) -> Option<Stats> {
    match members(v) {
        Some(m) => match (
            opt_int_field(m, "uploadedBytes"@),
            opt_int_field(m, "downloadedBytes"@),
            opt_int_field(m, "filesAdded"@),
            opt_int_field(m, "sessionCount"@),
            opt_int_field(m, "secondsActive"@),
        ) {
            (Some(a), Some(b), Some(c), Some(d), Some(e)) => Some(
                Stats {
                    uploaded_bytes: to_i64(a),
                    downloaded_bytes: to_i64(b),
                    files_added: to_i64(c),
                    session_count: to_i64(d),
                    seconds_active: to_i64(e),
                },
            ),
            _ => None,
        },
        None => None,
    }
}

/// A member that may be absent or null, or else must hold counters.
pub open spec fn opt_stats_of(v: Option<JsonV>) -> Option<Option<Stats>> {
    match v {
        None => Some(None),
        Some(JsonV::Null) => Some(None),
        Some(x) => match stats_of(x) {
            Some(s) => Some(Some(s)),
            None => None,
        },
    }
}

impl Stats {
    pub fn from_json(v: &Json) -> (r: Result<Stats, ClientError>)
        ensures
            r is Ok <==> stats_of(v@) is Some,
            r matches Ok(x) ==> stats_of(v@) == Some(x),
            r matches Err(e) ==> e is Decode,
    {
        let m = object_members(v)?;
        let uploaded_bytes = opt_int_member(m, "uploadedBytes")?;
        let downloaded_bytes = opt_int_member(m, "downloadedBytes")?;
        let files_added = opt_int_member(m, "filesAdded")?;
        let session_count = opt_int_member(m, "sessionCount")?;
        let seconds_active = opt_int_member(m, "secondsActive")?;
        Ok(Stats { uploaded_bytes, downloaded_bytes, files_added, session_count, seconds_active })
    }

    fn from_member(m: &Vec<(String, Json)>, key: &str) -> (r: Result<Option<Stats>, ClientError>)
        ensures
            r is Ok <==> opt_stats_of(lookup(members_view(m), key@)) is Some,
            r matches Ok(x) ==> opt_stats_of(lookup(members_view(m), key@)) == Some(x),
            r matches Err(e) ==> e is Decode,
    {
        match get(m, key) {
            None => Ok(None),
            Some(Json::Null) => Ok(None),
            Some(x) => {
                let s = Stats::from_json(x)?;
                Ok(Some(s))
            },
        }
    }
}

/// Statistics of the session, each of which the daemon may leave out.
#[derive(Clone, Copy, Debug, PartialEq, Eq, Structural)]
pub struct SessionStats {
    pub active_torrent_count: Option<i64>,
    pub download_speed: Option<i64>,
    pub paused_torrent_count: Option<i64>,
    pub torrent_count: Option<i64>,
    pub upload_speed: Option<i64>,
    pub cumulative_stats: Option<Stats>,
    pub current_stats: Option<Stats>,
}

/// An object whose members `activeTorrentCount`, `downloadSpeed`, `pausedTorrentCount`,
/// `torrentCount` and `uploadSpeed` are each absent, null or an integer, and whose
/// `cumulative-stats` and `current-stats` are each absent, null or counters.
pub open spec fn session_stats_of(v: JsonV) -> Option<SessionStats> {
    match members(v) {
        Some(m) => match (
            opt_int_field(m, "activeTorrentCount"@),
            opt_int_field(m, "downloadSpeed"@),
            opt_int_field(m, "pausedTorrentCount"@),
            opt_int_field(m, "torrentCount"@),
            opt_int_field(m, "uploadSpeed"@),
            opt_stats_of(lookup(m, "cumulative-stats"@)),
            opt_stats_of(lookup(m, "current-stats"@)),
        ) {
            (Some(a), Some(b), Some(c), Some(d), Some(e), Some(f), Some(g)) => Some(
                SessionStats {
                    active_torrent_count: to_i64(a),
                    download_speed: to_i64(b),
                    paused_torrent_count: to_i64(c),
                    torrent_count: to_i64(d),
                    upload_speed: to_i64(e),
                    cumulative_stats: f,
                    current_stats: g,
                },
            ),
            _ => None,
        },
        None => None,
    }
}

impl SessionStats {
    pub fn from_json(v: &Json) -> (r: Result<SessionStats, ClientError>)
        ensures
            r is Ok <==> session_stats_of(v@) is Some,
            r matches Ok(x) ==> session_stats_of(v@) == Some(x),
            r matches Err(e) ==> e is Decode,
    {
        let m = object_members(v)?;
        let active_torrent_count = opt_int_member(m, "activeTorrentCount")?;
        let download_speed = opt_int_member(m, "downloadSpeed")?;
        let paused_torrent_count = opt_int_member(m, "pausedTorrentCount")?;
        let torrent_count = opt_int_member(m, "torrentCount")?;
        let upload_speed = opt_int_member(m, "uploadSpeed")?;
        let cumulative_stats = Stats::from_member(m, "cumulative-stats")?;
        let current_stats = Stats::from_member(m, "current-stats")?;
        Ok(
            SessionStats {
                active_torrent_count,
                download_speed,
                paused_torrent_count,
                torrent_count,
                upload_speed,
                cumulative_stats,
                current_stats,
            },
        )
    }

    /// The typed result of a response.
    pub fn from_response(response: RpcResponse) -> (r: Result<SessionStats, ClientError>)
        ensures
            classified(response@) is None ==> (r matches Err(e) && classification_error(
                response@,
                e,
            )),
            classified(response@) matches Some(a) ==> (r is Ok <==> session_stats_of(a) is Some)
                && (r matches Ok(x) ==> session_stats_of(a) == Some(x)),
    {
        let v = value_from_response(response)?;
        SessionStats::from_json(&v)
    }
}

} // verus!
