use vstd::prelude::*;

use crate::error::ClientError;
use crate::json::{
    get, int_field, int_member, lookup, members, object_members, str_field, str_member,
    members_view, opt_bool_json, opt_int_json, opt_str_json, push_member, push_opt_bool,
    push_opt_int, push_opt_str, str_eq, with_member, Json, JsonV,
};
use crate::request::{ids_json, Ids, Method, RpcRequest};
use crate::response::{classification_error, classified, value_from_response, RpcResponse};

verus! {

/// The fields of a torrent that a get request can ask for.
#[derive(Clone, Copy, Debug, PartialEq, Eq, Structural)]
pub enum TorrentFields {
    ActivityDate,
    AddedDate,
    BandwidthPriority,
    Comment,
    CorruptEver,
    Creator,
    DateCreated,
    DesiredAvailable,
    DoneDate,
    DownloadDir,
    DownloadedEver,
    DownloadLimit,
    DownloadLimited,
    EditDate,
    Error,
    ErrorString,
    Eta,
    EtaIdle,
    FileCount,
    Files,
    FileStats,
    HashString,
    HaveUnchecked,
    HaveValid,
    HonorsSessionLimits,
    Id,
    IsFinished,
    IsPrivate,
    IsStalled,
    Labels,
    LeftUntilDone,
    MagnetLink,
    ManualAnnounceTime,
    MaxConnectedPeers,
    MetadataPercentComplete,
    Name,
    PeerLimit,
    Peers,
    PeersConnected,
    PeersFrom,
    PeersGettingFromUs,
    PeersSendingToUs,
    PercentDone,
    Pieces,
    PieceCount,
    PieceSize,
    Priorities,
    PrimaryMimeType,
    QueuePosition,
    RateDownload,
    RateUpload,
    RecheckProgress,
    SecondsDownloading,
    SecondsSeeding,
    SeedIdleLimit,
    SeedIdleMode,
    SeedRatioLimit,
    SeedRatioMode,
    SizeWhenDone,
    StartDate,
    Status,
    Trackers,
    TrackerStats,
    TotalSize,
    TorrentFile,
    UploadedEver,
    UploadLimit,
    UploadLimited,
    UploadRatio,
    Wanted,
    Webseeds,
    WebseedsSendingToUs,
}

/// The field that a name in lower case stands for.
pub open spec fn field_named(s: Seq<char>) -> Option<TorrentFields> {
    if s == "activitydate"@ {
        Some(TorrentFields::ActivityDate)
    } else     if s == "addeddate"@ {
        Some(TorrentFields::AddedDate)
    } else     if s == "bandwidthpriority"@ {
        Some(TorrentFields::BandwidthPriority)
    } else     if s == "comment"@ {
        Some(TorrentFields::Comment)
    } else     if s == "corruptever"@ {
        Some(TorrentFields::CorruptEver)
    } else     if s == "creator"@ {
        Some(TorrentFields::Creator)
    } else     if s == "datecreated"@ {
        Some(TorrentFields::DateCreated)
    } else     if s == "desiredavailable"@ {
        Some(TorrentFields::DesiredAvailable)
    } else     if s == "donedate"@ {
        Some(TorrentFields::DoneDate)
    } else     if s == "downloaddir"@ {
        Some(TorrentFields::DownloadDir)
    } else     if s == "downloadedever"@ {
        Some(TorrentFields::DownloadedEver)
    } else     if s == "downloadlimit"@ {
        Some(TorrentFields::DownloadLimit)
    } else     if s == "downloadlimited"@ {
        Some(TorrentFields::DownloadLimited)
    } else     if s == "editdate"@ {
        Some(TorrentFields::EditDate)
    } else     if s == "error"@ {
        Some(TorrentFields::Error)
    } else     if s == "errorstring"@ {
        Some(TorrentFields::ErrorString)
    } else     if s == "eta"@ {
        Some(TorrentFields::Eta)
    } else     if s == "etaidle"@ {
        Some(TorrentFields::EtaIdle)
    } else     if s == "file-count"@ {
        Some(TorrentFields::FileCount)
    } else     if s == "files"@ {
        Some(TorrentFields::Files)
    } else     if s == "filestats"@ {
        Some(TorrentFields::FileStats)
    } else     if s == "hashstring"@ {
        Some(TorrentFields::HashString)
    } else     if s == "haveunchecked"@ {
        Some(TorrentFields::HaveUnchecked)
    } else     if s == "havevalid"@ {
        Some(TorrentFields::HaveValid)
    } else     if s == "honorssessionlimits"@ {
        Some(TorrentFields::HonorsSessionLimits)
    } else     if s == "id"@ {
        Some(TorrentFields::Id)
    } else     if s == "isfinished"@ {
        Some(TorrentFields::IsFinished)
    } else     if s == "isprivate"@ {
        Some(TorrentFields::IsPrivate)
    } else     if s == "isstalled"@ {
        Some(TorrentFields::IsStalled)
    } else     if s == "labels"@ {
        Some(TorrentFields::Labels)
    } else     if s == "leftuntildone"@ {
        Some(TorrentFields::LeftUntilDone)
    } else     if s == "magnetlink"@ {
        Some(TorrentFields::MagnetLink)
    } else     if s == "manualannouncetime"@ {
        Some(TorrentFields::ManualAnnounceTime)
    } else     if s == "maxconnectedpeers"@ {
        Some(TorrentFields::MaxConnectedPeers)
    } else     if s == "metadatapercentcomplete"@ {
        Some(TorrentFields::MetadataPercentComplete)
    } else     if s == "name"@ {
        Some(TorrentFields::Name)
    } else     if s == "peer-limit"@ {
        Some(TorrentFields::PeerLimit)
    } else     if s == "peers"@ {
        Some(TorrentFields::Peers)
    } else     if s == "peersconnected"@ {
        Some(TorrentFields::PeersConnected)
    } else     if s == "peersfrom"@ {
        Some(TorrentFields::PeersFrom)
    } else     if s == "peersgettingfromus"@ {
        Some(TorrentFields::PeersGettingFromUs)
    } else     if s == "peerssendingtous"@ {
        Some(TorrentFields::PeersSendingToUs)
    } else     if s == "percentdone"@ {
        Some(TorrentFields::PercentDone)
    } else     if s == "pieces"@ {
        Some(TorrentFields::Pieces)
    } else     if s == "piececount"@ {
        Some(TorrentFields::PieceCount)
    } else     if s == "piecesize"@ {
        Some(TorrentFields::PieceSize)
    } else     if s == "priorities"@ {
        Some(TorrentFields::Priorities)
    } else     if s == "primary-mime-type"@ {
        Some(TorrentFields::PrimaryMimeType)
    } else     if s == "queueposition"@ {
        Some(TorrentFields::QueuePosition)
    } else     if s == "ratedownload"@ {
        Some(TorrentFields::RateDownload)
    } else     if s == "rateupload"@ {
        Some(TorrentFields::RateUpload)
    } else     if s == "recheckprogress"@ {
        Some(TorrentFields::RecheckProgress)
    } else     if s == "secondsdownloading"@ {
        Some(TorrentFields::SecondsDownloading)
    } else     if s == "secondsseeding"@ {
        Some(TorrentFields::SecondsSeeding)
    } else     if s == "seedidlelimit"@ {
        Some(TorrentFields::SeedIdleLimit)
    } else     if s == "seedidlemode"@ {
        Some(TorrentFields::SeedIdleMode)
    } else     if s == "seedratiolimit"@ {
        Some(TorrentFields::SeedRatioLimit)
    } else     if s == "seedratiomode"@ {
        Some(TorrentFields::SeedRatioMode)
    } else     if s == "sizewhendone"@ {
        Some(TorrentFields::SizeWhenDone)
    } else     if s == "startdate"@ {
        Some(TorrentFields::StartDate)
    } else     if s == "status"@ {
        Some(TorrentFields::Status)
    } else     if s == "trackers"@ {
        Some(TorrentFields::Trackers)
    } else     if s == "trackerstats"@ {
        Some(TorrentFields::TrackerStats)
    } else     if s == "totalsize"@ {
        Some(TorrentFields::TotalSize)
    } else     if s == "torrentfile"@ {
        Some(TorrentFields::TorrentFile)
    } else     if s == "uploadedever"@ {
        Some(TorrentFields::UploadedEver)
    } else     if s == "uploadlimit"@ {
        Some(TorrentFields::UploadLimit)
    } else     if s == "uploadlimited"@ {
        Some(TorrentFields::UploadLimited)
    } else     if s == "uploadratio"@ {
        Some(TorrentFields::UploadRatio)
    } else     if s == "wanted"@ {
        Some(TorrentFields::Wanted)
    } else     if s == "webseeds"@ {
        Some(TorrentFields::Webseeds)
    } else     if s == "webseedssendingtous"@ {
        Some(TorrentFields::WebseedsSendingToUs)
    } else {
        None
    }
}

/// What `str::to_lowercase` makes of a string.
pub uninterp spec fn lower_of(s: Seq<char>) -> Seq<char>;

/// Relies on str::to_lowercase: the lower-case form of each character, which depends on the
/// characters alone.
#[verifier::external_body]
fn lowercase(s: &str) -> (r: String)
    ensures
        r@ == lower_of(s@),
{
    s.to_lowercase()
}

impl TorrentFields {
    /// The name of the field on the wire.
    pub open spec fn spec_name(self) -> Seq<char> {
        match self {
            TorrentFields::ActivityDate => "activityDate"@,
            TorrentFields::AddedDate => "addedDate"@,
            TorrentFields::BandwidthPriority => "bandwidthPriority"@,
            TorrentFields::Comment => "comment"@,
            TorrentFields::CorruptEver => "corruptEver"@,
            TorrentFields::Creator => "creator"@,
            TorrentFields::DateCreated => "dateCreated"@,
            TorrentFields::DesiredAvailable => "desiredAvailable"@,
            TorrentFields::DoneDate => "doneDate"@,
            TorrentFields::DownloadDir => "downloadDir"@,
            TorrentFields::DownloadedEver => "downloadedEver"@,
            TorrentFields::DownloadLimit => "downloadLimit"@,
            TorrentFields::DownloadLimited => "downloadLimited"@,
            TorrentFields::EditDate => "editDate"@,
            TorrentFields::Error => "error"@,
            TorrentFields::ErrorString => "errorString"@,
            TorrentFields::Eta => "eta"@,
            TorrentFields::EtaIdle => "etaIdle"@,
            TorrentFields::FileCount => "file-count"@,
            TorrentFields::Files => "files"@,
            TorrentFields::FileStats => "fileStats"@,
            TorrentFields::HashString => "hashString"@,
            TorrentFields::HaveUnchecked => "haveUnchecked"@,
            TorrentFields::HaveValid => "haveValid"@,
            TorrentFields::HonorsSessionLimits => "honorsSessionLimits"@,
            TorrentFields::Id => "id"@,
            TorrentFields::IsFinished => "isFinished"@,
            TorrentFields::IsPrivate => "isPrivate"@,
            TorrentFields::IsStalled => "isStalled"@,
            TorrentFields::Labels => "labels"@,
            TorrentFields::LeftUntilDone => "leftUntilDone"@,
            TorrentFields::MagnetLink => "magnetLink"@,
            TorrentFields::ManualAnnounceTime => "manualAnnounceTime"@,
            TorrentFields::MaxConnectedPeers => "maxConnectedPeers"@,
            TorrentFields::MetadataPercentComplete => "metadataPercentComplete"@,
            TorrentFields::Name => "name"@,
            TorrentFields::PeerLimit => "peer-limit"@,
            TorrentFields::Peers => "peers"@,
            TorrentFields::PeersConnected => "peersConnected"@,
            TorrentFields::PeersFrom => "peersFrom"@,
            TorrentFields::PeersGettingFromUs => "peersGettingFromUs"@,
            TorrentFields::PeersSendingToUs => "peersSendingToUs"@,
            TorrentFields::PercentDone => "percentDone"@,
            TorrentFields::Pieces => "pieces"@,
            TorrentFields::PieceCount => "pieceCount"@,
            TorrentFields::PieceSize => "pieceSize"@,
            TorrentFields::Priorities => "priorities"@,
            TorrentFields::PrimaryMimeType => "primary-mime-type"@,
            TorrentFields::QueuePosition => "queuePosition"@,
            TorrentFields::RateDownload => "rateDownload"@,
            TorrentFields::RateUpload => "rateUpload"@,
            TorrentFields::RecheckProgress => "recheckProgress"@,
            TorrentFields::SecondsDownloading => "secondsDownloading"@,
            TorrentFields::SecondsSeeding => "secondsSeeding"@,
            TorrentFields::SeedIdleLimit => "seedIdleLimit"@,
            TorrentFields::SeedIdleMode => "seedIdleMode"@,
            TorrentFields::SeedRatioLimit => "seedRatioLimit"@,
            TorrentFields::SeedRatioMode => "seedRatioMode"@,
            TorrentFields::SizeWhenDone => "sizeWhenDone"@,
            TorrentFields::StartDate => "startDate"@,
            TorrentFields::Status => "status"@,
            TorrentFields::Trackers => "trackers"@,
            TorrentFields::TrackerStats => "trackerStats"@,
            TorrentFields::TotalSize => "totalSize"@,
            TorrentFields::TorrentFile => "torrentFile"@,
            TorrentFields::UploadedEver => "uploadedEver"@,
            TorrentFields::UploadLimit => "uploadLimit"@,
            TorrentFields::UploadLimited => "uploadLimited"@,
            TorrentFields::UploadRatio => "uploadRatio"@,
            TorrentFields::Wanted => "wanted"@,
            TorrentFields::Webseeds => "webseeds"@,
            TorrentFields::WebseedsSendingToUs => "webseedsSendingToUs"@,
        }
    }

    pub fn name(&self) -> (r: &'static str)
        ensures
            r@ == self.spec_name(),
    {
        match self {
            TorrentFields::ActivityDate => "activityDate",
            TorrentFields::AddedDate => "addedDate",
            TorrentFields::BandwidthPriority => "bandwidthPriority",
            TorrentFields::Comment => "comment",
            TorrentFields::CorruptEver => "corruptEver",
            TorrentFields::Creator => "creator",
            TorrentFields::DateCreated => "dateCreated",
            TorrentFields::DesiredAvailable => "desiredAvailable",
            TorrentFields::DoneDate => "doneDate",
            TorrentFields::DownloadDir => "downloadDir",
            TorrentFields::DownloadedEver => "downloadedEver",
            TorrentFields::DownloadLimit => "downloadLimit",
            TorrentFields::DownloadLimited => "downloadLimited",
            TorrentFields::EditDate => "editDate",
            TorrentFields::Error => "error",
            TorrentFields::ErrorString => "errorString",
            TorrentFields::Eta => "eta",
            TorrentFields::EtaIdle => "etaIdle",
            TorrentFields::FileCount => "file-count",
            TorrentFields::Files => "files",
            TorrentFields::FileStats => "fileStats",
            TorrentFields::HashString => "hashString",
            TorrentFields::HaveUnchecked => "haveUnchecked",
            TorrentFields::HaveValid => "haveValid",
            TorrentFields::HonorsSessionLimits => "honorsSessionLimits",
            TorrentFields::Id => "id",
            TorrentFields::IsFinished => "isFinished",
            TorrentFields::IsPrivate => "isPrivate",
            TorrentFields::IsStalled => "isStalled",
            TorrentFields::Labels => "labels",
            TorrentFields::LeftUntilDone => "leftUntilDone",
            TorrentFields::MagnetLink => "magnetLink",
            TorrentFields::ManualAnnounceTime => "manualAnnounceTime",
            TorrentFields::MaxConnectedPeers => "maxConnectedPeers",
            TorrentFields::MetadataPercentComplete => "metadataPercentComplete",
            TorrentFields::Name => "name",
            TorrentFields::PeerLimit => "peer-limit",
            TorrentFields::Peers => "peers",
            TorrentFields::PeersConnected => "peersConnected",
            TorrentFields::PeersFrom => "peersFrom",
            TorrentFields::PeersGettingFromUs => "peersGettingFromUs",
            TorrentFields::PeersSendingToUs => "peersSendingToUs",
            TorrentFields::PercentDone => "percentDone",
            TorrentFields::Pieces => "pieces",
            TorrentFields::PieceCount => "pieceCount",
            TorrentFields::PieceSize => "pieceSize",
            TorrentFields::Priorities => "priorities",
            TorrentFields::PrimaryMimeType => "primary-mime-type",
            TorrentFields::QueuePosition => "queuePosition",
            TorrentFields::RateDownload => "rateDownload",
            TorrentFields::RateUpload => "rateUpload",
            TorrentFields::RecheckProgress => "recheckProgress",
            TorrentFields::SecondsDownloading => "secondsDownloading",
            TorrentFields::SecondsSeeding => "secondsSeeding",
            TorrentFields::SeedIdleLimit => "seedIdleLimit",
            TorrentFields::SeedIdleMode => "seedIdleMode",
            TorrentFields::SeedRatioLimit => "seedRatioLimit",
            TorrentFields::SeedRatioMode => "seedRatioMode",
            TorrentFields::SizeWhenDone => "sizeWhenDone",
            TorrentFields::StartDate => "startDate",
            TorrentFields::Status => "status",
            TorrentFields::Trackers => "trackers",
            TorrentFields::TrackerStats => "trackerStats",
            TorrentFields::TotalSize => "totalSize",
            TorrentFields::TorrentFile => "torrentFile",
            TorrentFields::UploadedEver => "uploadedEver",
            TorrentFields::UploadLimit => "uploadLimit",
            TorrentFields::UploadLimited => "uploadLimited",
            TorrentFields::UploadRatio => "uploadRatio",
            TorrentFields::Wanted => "wanted",
            TorrentFields::Webseeds => "webseeds",
            TorrentFields::WebseedsSendingToUs => "webseedsSendingToUs",
        }
    }

    /// The field that a name already in lower case stands for.
    pub fn from_lowercase(s: &str) -> (r: Result<TorrentFields, ClientError>)
        ensures
            field_named(s@) matches Some(f) ==> r == Ok::<TorrentFields, ClientError>(f),
            field_named(s@) is None ==> r matches Err(ClientError::UnknownTorrentFields),
    {
        if str_eq(s, "activitydate") {
            return Ok(TorrentFields::ActivityDate);
        }
        if str_eq(s, "addeddate") {
            return Ok(TorrentFields::AddedDate);
        }
        if str_eq(s, "bandwidthpriority") {
            return Ok(TorrentFields::BandwidthPriority);
        }
        if str_eq(s, "comment") {
            return Ok(TorrentFields::Comment);
        }
        if str_eq(s, "corruptever") {
            return Ok(TorrentFields::CorruptEver);
        }
        if str_eq(s, "creator") {
            return Ok(TorrentFields::Creator);
        }
        if str_eq(s, "datecreated") {
            return Ok(TorrentFields::DateCreated);
        }
        if str_eq(s, "desiredavailable") {
            return Ok(TorrentFields::DesiredAvailable);
        }
        if str_eq(s, "donedate") {
            return Ok(TorrentFields::DoneDate);
        }
        if str_eq(s, "downloaddir") {
            return Ok(TorrentFields::DownloadDir);
        }
        if str_eq(s, "downloadedever") {
            return Ok(TorrentFields::DownloadedEver);
        }
        if str_eq(s, "downloadlimit") {
            return Ok(TorrentFields::DownloadLimit);
        }
        if str_eq(s, "downloadlimited") {
            return Ok(TorrentFields::DownloadLimited);
        }
        if str_eq(s, "editdate") {
            return Ok(TorrentFields::EditDate);
        }
        if str_eq(s, "error") {
            return Ok(TorrentFields::Error);
        }
        if str_eq(s, "errorstring") {
            return Ok(TorrentFields::ErrorString);
        }
        if str_eq(s, "eta") {
            return Ok(TorrentFields::Eta);
        }
        if str_eq(s, "etaidle") {
            return Ok(TorrentFields::EtaIdle);
        }
        if str_eq(s, "file-count") {
            return Ok(TorrentFields::FileCount);
        }
        if str_eq(s, "files") {
            return Ok(TorrentFields::Files);
        }
        if str_eq(s, "filestats") {
            return Ok(TorrentFields::FileStats);
        }
        if str_eq(s, "hashstring") {
            return Ok(TorrentFields::HashString);
        }
        if str_eq(s, "haveunchecked") {
            return Ok(TorrentFields::HaveUnchecked);
        }
        if str_eq(s, "havevalid") {
            return Ok(TorrentFields::HaveValid);
        }
        if str_eq(s, "honorssessionlimits") {
            return Ok(TorrentFields::HonorsSessionLimits);
        }
        if str_eq(s, "id") {
            return Ok(TorrentFields::Id);
        }
        if str_eq(s, "isfinished") {
            return Ok(TorrentFields::IsFinished);
        }
        if str_eq(s, "isprivate") {
            return Ok(TorrentFields::IsPrivate);
        }
        if str_eq(s, "isstalled") {
            return Ok(TorrentFields::IsStalled);
        }
        if str_eq(s, "labels") {
            return Ok(TorrentFields::Labels);
        }
        if str_eq(s, "leftuntildone") {
            return Ok(TorrentFields::LeftUntilDone);
        }
        if str_eq(s, "magnetlink") {
            return Ok(TorrentFields::MagnetLink);
        }
        if str_eq(s, "manualannouncetime") {
            return Ok(TorrentFields::ManualAnnounceTime);
        }
        if str_eq(s, "maxconnectedpeers") {
            return Ok(TorrentFields::MaxConnectedPeers);
        }
        if str_eq(s, "metadatapercentcomplete") {
            return Ok(TorrentFields::MetadataPercentComplete);
        }
        if str_eq(s, "name") {
            return Ok(TorrentFields::Name);
        }
        if str_eq(s, "peer-limit") {
            return Ok(TorrentFields::PeerLimit);
        }
        if str_eq(s, "peers") {
            return Ok(TorrentFields::Peers);
        }
        if str_eq(s, "peersconnected") {
            return Ok(TorrentFields::PeersConnected);
        }
        if str_eq(s, "peersfrom") {
            return Ok(TorrentFields::PeersFrom);
        }
        if str_eq(s, "peersgettingfromus") {
            return Ok(TorrentFields::PeersGettingFromUs);
        }
        if str_eq(s, "peerssendingtous") {
            return Ok(TorrentFields::PeersSendingToUs);
        }
        if str_eq(s, "percentdone") {
            return Ok(TorrentFields::PercentDone);
        }
        if str_eq(s, "pieces") {
            return Ok(TorrentFields::Pieces);
        }
        if str_eq(s, "piececount") {
            return Ok(TorrentFields::PieceCount);
        }
        if str_eq(s, "piecesize") {
            return Ok(TorrentFields::PieceSize);
        }
        if str_eq(s, "priorities") {
            return Ok(TorrentFields::Priorities);
        }
        if str_eq(s, "primary-mime-type") {
            return Ok(TorrentFields::PrimaryMimeType);
        }
        if str_eq(s, "queueposition") {
            return Ok(TorrentFields::QueuePosition);
        }
        if str_eq(s, "ratedownload") {
            return Ok(TorrentFields::RateDownload);
        }
        if str_eq(s, "rateupload") {
            return Ok(TorrentFields::RateUpload);
        }
        if str_eq(s, "recheckprogress") {
            return Ok(TorrentFields::RecheckProgress);
        }
        if str_eq(s, "secondsdownloading") {
            return Ok(TorrentFields::SecondsDownloading);
        }
        if str_eq(s, "secondsseeding") {
            return Ok(TorrentFields::SecondsSeeding);
        }
        if str_eq(s, "seedidlelimit") {
            return Ok(TorrentFields::SeedIdleLimit);
        }
        if str_eq(s, "seedidlemode") {
            return Ok(TorrentFields::SeedIdleMode);
        }
        if str_eq(s, "seedratiolimit") {
            return Ok(TorrentFields::SeedRatioLimit);
        }
        if str_eq(s, "seedratiomode") {
            return Ok(TorrentFields::SeedRatioMode);
        }
        if str_eq(s, "sizewhendone") {
            return Ok(TorrentFields::SizeWhenDone);
        }
        if str_eq(s, "startdate") {
            return Ok(TorrentFields::StartDate);
        }
        if str_eq(s, "status") {
            return Ok(TorrentFields::Status);
        }
        if str_eq(s, "trackers") {
            return Ok(TorrentFields::Trackers);
        }
        if str_eq(s, "trackerstats") {
            return Ok(TorrentFields::TrackerStats);
        }
        if str_eq(s, "totalsize") {
            return Ok(TorrentFields::TotalSize);
        }
        if str_eq(s, "torrentfile") {
            return Ok(TorrentFields::TorrentFile);
        }
        if str_eq(s, "uploadedever") {
            return Ok(TorrentFields::UploadedEver);
        }
        if str_eq(s, "uploadlimit") {
            return Ok(TorrentFields::UploadLimit);
        }
        if str_eq(s, "uploadlimited") {
            return Ok(TorrentFields::UploadLimited);
        }
        if str_eq(s, "uploadratio") {
            return Ok(TorrentFields::UploadRatio);
        }
        if str_eq(s, "wanted") {
            return Ok(TorrentFields::Wanted);
        }
        if str_eq(s, "webseeds") {
            return Ok(TorrentFields::Webseeds);
        }
        if str_eq(s, "webseedssendingtous") {
            return Ok(TorrentFields::WebseedsSendingToUs);
        }
        Err(ClientError::UnknownTorrentFields)
    }
}

impl TryFrom<&str> for TorrentFields {
    type Error = ClientError;

    /// The field that a name stands for, whatever the case of its letters.
    fn try_from(value: &str) -> (r: Result<TorrentFields, ClientError>) {
        let lower = lowercase(value);
        TorrentFields::from_lowercase(lower.as_str())
    }
}

impl vstd::std_specs::convert::TryFromSpecImpl<&str> for TorrentFields {
    open spec fn obeys_try_from_spec() -> bool {
        true
    }

    open spec fn try_from_spec(v: &str) -> Result<TorrentFields, ClientError> {
        match field_named(lower_of(v@)) {
            Some(f) => Ok(f),
            None => Err(ClientError::UnknownTorrentFields),
        }
    }
}

/// The JSON form of a list of fields: an array of their names.
pub open spec fn fields_json(f: Seq<TorrentFields>) -> JsonV {
    JsonV::Array(f.map_values(|x: TorrentFields| JsonV::Str(x.spec_name())))
}

pub fn fields_to_json(fields: &Vec<TorrentFields>) -> (r: Json)
    ensures
        r@ == fields_json(fields@),
{
    let mut out: Vec<Json> = Vec::new();
    let mut i: usize = 0;
    while i < fields.len()
        invariant
            0 <= i <= fields.len(),
            out@.len() == i,
            forall|k: int| 0 <= k < i ==> (#[trigger] out@[k])@ == JsonV::Str(fields@[k].spec_name()),
        decreases fields.len() - i,
    {
        out.push(Json::Str(fields[i].name().to_string()));
        i = i + 1;
    }
    let r = Json::Array(out);
    assert(match r@ {
        JsonV::Array(s) => s =~= fields@.map_values(|x: TorrentFields| JsonV::Str(x.spec_name())),
        _ => false,
    });
    r
}

pub open spec fn opt_ids_json(ids: Option<Ids>) -> Option<JsonV> {
    match ids {
        Some(i) => Some(ids_json(i@)),
        None => None,
    }
}

/// Which torrents to get, and which of their fields.
#[derive(Debug)]
pub struct TorrentGetArgs {
    pub ids: Option<Ids>,
    pub fields: Vec<TorrentFields>,
}

impl Default for TorrentGetArgs {
    fn default() -> (r: TorrentGetArgs)
        ensures
            r.ids is None,
            r.fields@.len() == 0,
    {
        TorrentGetArgs { ids: None, fields: Vec::new() }
    }
}

impl TorrentGetArgs {
    /// `{"ids": ..., "fields": [...]}`, without `ids` where there are none.
    pub open spec fn spec_json(&self) -> JsonV {
        JsonV::Object(
            with_member(seq![], "ids"@, opt_ids_json(self.ids)).push(
                ("fields"@, fields_json(self.fields@)),
            ),
        )
    }

    pub fn to_json(&self) -> (r: Json)
        ensures
            r@ == self.spec_json(),
    {
        let mut m: Vec<(String, Json)> = Vec::new();
        assert(members_view(&m) =~= Seq::empty());
        match &self.ids {
            Some(ids) => push_member(&mut m, "ids", ids.to_json()),
            None => {},
        }
        push_member(&mut m, "fields", fields_to_json(&self.fields));
        Json::Object(m)
    }

    /// The request that gets the torrents.
    pub fn to_request(&self) -> (r: RpcRequest)
        ensures
            r.method == Method::TorrentGet,
            r.tag is None,
            r.arguments matches Some(a) && a@ == self.spec_json(),
    {
        RpcRequest::new(Method::TorrentGet, Some(self.to_json()))
    }
}

/// What base64, in its standard alphabet with padding, makes of some bytes.
pub uninterp spec fn base64_of(b: Seq<u8>) -> Seq<char>;

/// Relies on base64::encode_config_buf with base64::STANDARD: appends the standard base64
/// form of the bytes to an empty string, and that form depends on the bytes alone.
#[verifier::external_body]
fn base64_encode(b: &[u8]) -> (r: String)
    ensures
        r@ == base64_of(b@),
{
    let mut buf = String::new();
    base64::encode_config_buf(b, base64::STANDARD, &mut buf);
    buf
}

/// The metadata of a torrent file as an add request carries it: its bytes in base64.
pub fn metadata_of(content: &[u8]) -> (r: String)
    ensures
        r@ == base64_of(content@),
{
    base64_encode(content)
}

/// A torrent to add, from a file name or URL, or from embedded metadata, with its options.
#[derive(Debug)]
pub struct TorrentAddArgs {
    pub cookies: Option<String>,
    pub download_dir: Option<String>,
    pub filename: Option<String>,
    pub metainfo: Option<String>,
    pub paused: Option<bool>,
    pub peer_limit: Option<i64>,
    pub bandwidth_priority: Option<i64>,
    pub files_wanted: Option<i64>,
    pub files_unwanted: Option<i64>,
    pub priority_high: Option<i64>,
    pub priority_low: Option<i64>,
    pub priority_normal: Option<i64>,
}

impl Default for TorrentAddArgs {
    fn default() -> (r: TorrentAddArgs)
        ensures
            r.has_no_options(),
            r.filename is None,
            r.metainfo is None,
    {
        TorrentAddArgs {
            cookies: None,
            download_dir: None,
            filename: None,
            metainfo: None,
            paused: None,
            peer_limit: None,
            bandwidth_priority: None,
            files_wanted: None,
            files_unwanted: None,
            priority_high: None,
            priority_low: None,
            priority_normal: None,
        }
    }
}

impl TorrentAddArgs {
    /// Every option but the source is unset.
    pub open spec fn has_no_options(&self) -> bool {
        &&& self.cookies is None
        &&& self.download_dir is None
        &&& self.paused is None
        &&& self.peer_limit is None
        &&& self.bandwidth_priority is None
        &&& self.files_wanted is None
        &&& self.files_unwanted is None
        &&& self.priority_high is None
        &&& self.priority_low is None
        &&& self.priority_normal is None
    }

    /// Arguments that add a torrent from the content of a torrent file.
    pub fn from_meta(content: &[u8]) -> (r: Result<TorrentAddArgs, ClientError>)
        ensures
            r matches Ok(a) && a.has_no_options() && a.filename is None && (a.metainfo matches Some(
                m,
            ) && m@ == base64_of(content@)),
    {
        let mut args = TorrentAddArgs::default();
        args.metainfo = Some(metadata_of(content));
        Ok(args)
    }

    /// Arguments that add a torrent from a file name or URL that the daemon reads.
    pub fn from_file(path: &str) -> (r: Result<TorrentAddArgs, ClientError>)
        ensures
            r matches Ok(a) && a.has_no_options() && a.metainfo is None && (a.filename matches Some(
                f,
            ) && f@ == path@),
    {
        let mut args = TorrentAddArgs::default();
        args.filename = Some(path.to_string());
        Ok(args)
    }

    /// The members that are set, under their wire names, in this order.
    pub open spec fn spec_json(&self) -> JsonV {
        let m = with_member(seq![], "cookies"@, opt_str_json(self.cookies));
        let m = with_member(m, "download-dir"@, opt_str_json(self.download_dir));
        let m = with_member(m, "filename"@, opt_str_json(self.filename));
        let m = with_member(m, "metainfo"@, opt_str_json(self.metainfo));
        let m = with_member(m, "paused"@, opt_bool_json(self.paused));
        let m = with_member(m, "peer-limit"@, opt_int_json(self.peer_limit));
        let m = with_member(m, "bandwidthPriority"@, opt_int_json(self.bandwidth_priority));
        let m = with_member(m, "files-wanted"@, opt_int_json(self.files_wanted));
        let m = with_member(m, "files-unwanted"@, opt_int_json(self.files_unwanted));
        let m = with_member(m, "priority-high"@, opt_int_json(self.priority_high));
        let m = with_member(m, "priority-low"@, opt_int_json(self.priority_low));
        let m = with_member(m, "priority-normal"@, opt_int_json(self.priority_normal));
        JsonV::Object(m)
    }

    pub fn to_json(&self) -> (r: Json)
        ensures
            r@ == self.spec_json(),
    {
        let mut m: Vec<(String, Json)> = Vec::new();
        assert(members_view(&m) =~= Seq::empty());
        push_opt_str(&mut m, "cookies", &self.cookies);
        push_opt_str(&mut m, "download-dir", &self.download_dir);
        push_opt_str(&mut m, "filename", &self.filename);
        push_opt_str(&mut m, "metainfo", &self.metainfo);
        push_opt_bool(&mut m, "paused", self.paused);
        push_opt_int(&mut m, "peer-limit", self.peer_limit);
        push_opt_int(&mut m, "bandwidthPriority", self.bandwidth_priority);
        push_opt_int(&mut m, "files-wanted", self.files_wanted);
        push_opt_int(&mut m, "files-unwanted", self.files_unwanted);
        push_opt_int(&mut m, "priority-high", self.priority_high);
        push_opt_int(&mut m, "priority-low", self.priority_low);
        push_opt_int(&mut m, "priority-normal", self.priority_normal);
        Json::Object(m)
    }

    /// The request that adds the torrent. It names exactly one source, a file or metadata;
    /// both, or neither, is refused before anything is sent.
    pub fn to_request(&self) -> (r: Result<RpcRequest, ClientError>)
        ensures
            self.filename is Some && self.metainfo is Some ==> r matches Err(
                ClientError::BothFileMeta,
            ),
            self.filename is None && self.metainfo is None ==> r matches Err(
                ClientError::NoFileMeta,
            ),
            self.filename is Some != self.metainfo is Some ==> (r matches Ok(req) && req.method
                == Method::TorrentAdd && req.tag is None && (req.arguments matches Some(a) && a@
                == self.spec_json())),
    {
        match (&self.filename, &self.metainfo) {
            (Some(_), Some(_)) => Err(ClientError::BothFileMeta),
            (None, None) => Err(ClientError::NoFileMeta),
            _ => Ok(RpcRequest::new(Method::TorrentAdd, Some(self.to_json()))),
        }
    }
}

/// Torrents to remove, and whether their downloaded data goes too.
#[derive(Debug)]
pub struct TorrentRemoveArgs {
    pub ids: Ids,
    pub delete_local_data: bool,
}

impl TorrentRemoveArgs {
    /// `{"ids": ..., "delete-local-data": ...}`
    pub open spec fn spec_json(&self) -> JsonV {
        JsonV::Object(
            seq![("ids"@, ids_json(self.ids@)), ("delete-local-data"@, JsonV::Bool(self.delete_local_data))],
        )
    }

    pub fn to_json(&self) -> (r: Json)
        ensures
            r@ == self.spec_json(),
    {
        let mut m: Vec<(String, Json)> = Vec::new();
        assert(members_view(&m) =~= Seq::empty());
        push_member(&mut m, "ids", self.ids.to_json());
        push_member(&mut m, "delete-local-data", Json::Bool(self.delete_local_data));
        let r = Json::Object(m);
        assert(members_view(&m) =~= seq![("ids"@, ids_json(self.ids@)), ("delete-local-data"@, JsonV::Bool(self.delete_local_data))]);
        r
    }

    /// The request that removes the torrents.
    pub fn to_request(&self) -> (r: RpcRequest)
        ensures
            r.method == Method::TorrentRemove,
            r.tag is None,
            r.arguments matches Some(a) && a@ == self.spec_json(),
    {
        RpcRequest::new(Method::TorrentRemove, Some(self.to_json()))
    }
}

/// Torrents to move to a new location, and whether their data moves with them.
#[derive(Debug)]
pub struct TorrentSetLocationArgs {
    pub ids: Ids,
    pub location: String,
    pub move_local_data: bool,
}

impl TorrentSetLocationArgs {
    /// `{"ids": ..., "location": ..., "move": ...}`
    pub open spec fn spec_json(&self) -> JsonV {
        JsonV::Object(
            seq![
                ("ids"@, ids_json(self.ids@)),
                ("location"@, JsonV::Str(self.location@)),
                ("move"@, JsonV::Bool(self.move_local_data)),
            ],
        )
    }

    pub fn to_json(&self) -> (r: Json)
        ensures
            r@ == self.spec_json(),
    {
        let mut m: Vec<(String, Json)> = Vec::new();
        assert(members_view(&m) =~= Seq::empty());
        push_member(&mut m, "ids", self.ids.to_json());
        push_member(&mut m, "location", Json::Str(self.location.clone()));
        push_member(&mut m, "move", Json::Bool(self.move_local_data));
        let r = Json::Object(m);
        assert(members_view(&m) =~= seq![
            ("ids"@, ids_json(self.ids@)),
            ("location"@, JsonV::Str(self.location@)),
            ("move"@, JsonV::Bool(self.move_local_data)),
        ]);
        r
    }

    /// The request that moves the torrents.
    pub fn to_request(&self) -> (r: RpcRequest)
        ensures
            r.method == Method::TorrentSetLocation,
            r.tag is None,
            r.arguments matches Some(a) && a@ == self.spec_json(),
    {
        RpcRequest::new(Method::TorrentSetLocation, Some(self.to_json()))
    }
}

/// A file or directory of a torrent to rename.
#[derive(Debug)]
pub struct TorrentRenamePathArgs {
    pub ids: Ids,
    pub path: String,
    pub name: String,
}

impl TorrentRenamePathArgs {
    /// `{"ids": ..., "path": ..., "name": ...}`
    pub open spec fn spec_json(&self) -> JsonV {
        JsonV::Object(
            seq![
                ("ids"@, ids_json(self.ids@)),
                ("path"@, JsonV::Str(self.path@)),
                ("name"@, JsonV::Str(self.name@)),
            ],
        )
    }

    pub fn to_json(&self) -> (r: Json)
        ensures
            r@ == self.spec_json(),
    {
        let mut m: Vec<(String, Json)> = Vec::new();
        assert(members_view(&m) =~= Seq::empty());
        push_member(&mut m, "ids", self.ids.to_json());
        push_member(&mut m, "path", Json::Str(self.path.clone()));
        push_member(&mut m, "name", Json::Str(self.name.clone()));
        let r = Json::Object(m);
        assert(members_view(&m) =~= seq![
            ("ids"@, ids_json(self.ids@)),
            ("path"@, JsonV::Str(self.path@)),
            ("name"@, JsonV::Str(self.name@)),
        ]);
        r
    }

    /// The request that renames the path.
    pub fn to_request(&self) -> (r: RpcRequest)
        ensures
            r.method == Method::TorrentRenamePath,
            r.tag is None,
            r.arguments matches Some(a) && a@ == self.spec_json(),
    {
        RpcRequest::new(Method::TorrentRenamePath, Some(self.to_json()))
    }
}

/// A torrent that an add request added, or found already there.
#[derive(Debug)]
pub struct TorrentAddResponse {
    pub hash_string: String,
    pub id: i64,
    pub name: String,
}

impl View for TorrentAddResponse {
    type V = (Seq<char>, int, Seq<char>);

    open spec fn view(&self) -> Self::V {
        (self.hash_string@, self.id as int, self.name@)
    }
}

/// `{"hashString": <string>, "id": <integer>, "name": <string>}`
pub open spec fn add_response_of(v: JsonV) -> Option<(Seq<char>, int, Seq<char>)> {
    match members(v) {
        Some(m) => match (str_field(m, "hashString"@), int_field(m, "id"@), str_field(m, "name"@)) {
            (Some(h), Some(i), Some(n)) => Some((h, i, n)),
            _ => None,
        },
        None => None,
    }
}

/// A member that may be absent or null, or else must be an added torrent.
pub open spec fn opt_add_response_of(v: Option<JsonV>) -> Option<Option<(Seq<char>, int, Seq<char>)>> {
    match v {
        None => Some(None),
        Some(JsonV::Null) => Some(None),
        Some(x) => match add_response_of(x) {
            Some(a) => Some(Some(a)),
            None => None,
        },
    }
}

pub open spec fn opt_add_response_view(v: Option<TorrentAddResponse>) -> Option<(Seq<char>, int, Seq<char>)> {
    match v {
        Some(a) => Some(a@),
        None => None,
    }
}

impl TorrentAddResponse {
    pub fn from_json(v: &Json) -> (r: Result<TorrentAddResponse, ClientError>)
        ensures
            r is Ok <==> add_response_of(v@) is Some,
            r matches Ok(x) ==> add_response_of(v@) == Some(x@),
            r matches Err(e) ==> e is Decode,
    {
        let m = object_members(v)?;
        let hash_string = str_member(m, "hashString")?;
        let id = int_member(m, "id")?;
        let name = str_member(m, "name")?;
        Ok(TorrentAddResponse { hash_string, id, name })
    }

    fn from_member(m: &Vec<(String, Json)>, key: &str) -> (r: Result<Option<TorrentAddResponse>, ClientError>)
        ensures
            r is Ok <==> opt_add_response_of(lookup(members_view(m), key@)) is Some,
            r matches Ok(x) ==> opt_add_response_of(lookup(members_view(m), key@)) == Some(opt_add_response_view(x)),
            r matches Err(e) ==> e is Decode,
    {
        match get(m, key) {
            None => Ok(None),
            Some(Json::Null) => Ok(None),
            Some(x) => {
                let a = TorrentAddResponse::from_json(x)?;
                Ok(Some(a))
            },
        }
    }
}

/// What an add request did: the torrent it added, or the one that was there already.
#[derive(Debug)]
pub struct TorrentAdd {
    pub torrent: Option<TorrentAddResponse>,
    pub torrent_duplicate: Option<TorrentAddResponse>,
}

impl View for TorrentAdd {
    type V = (Option<(Seq<char>, int, Seq<char>)>, Option<(Seq<char>, int, Seq<char>)>);

    open spec fn view(&self) -> Self::V {
        (opt_add_response_view(self.torrent), opt_add_response_view(self.torrent_duplicate))
    }
}

/// `{"torrent": ..., "torrent-duplicate": ...}`, each absent, null or an added torrent.
pub open spec fn torrent_add_of(
    v: JsonV,
) -> Option<(Option<(Seq<char>, int, Seq<char>)>, Option<(Seq<char>, int, Seq<char>)>)> {
    match members(v) {
        Some(m) => match (
            opt_add_response_of(lookup(m, "torrent"@)),
            opt_add_response_of(lookup(m, "torrent-duplicate"@)),
        ) {
            (Some(t), Some(d)) => Some((t, d)),
            _ => None,
        },
        None => None,
    }
}

impl TorrentAdd {
    pub fn from_json(v: &Json) -> (r: Result<TorrentAdd, ClientError>)
        ensures
            r is Ok <==> torrent_add_of(v@) is Some,
            r matches Ok(x) ==> torrent_add_of(v@) == Some(x@),
            r matches Err(e) ==> e is Decode,
    {
        let m = object_members(v)?;
        let torrent = TorrentAddResponse::from_member(m, "torrent")?;
        let torrent_duplicate = TorrentAddResponse::from_member(m, "torrent-duplicate")?;
        Ok(TorrentAdd { torrent, torrent_duplicate })
    }

    /// The typed result of a response.
    pub fn from_response(response: RpcResponse) -> (r: Result<TorrentAdd, ClientError>)
        ensures
            classified(response@) is None ==> (r matches Err(e) && classification_error(
                response@,
                e,
            )),
            classified(response@) matches Some(a) ==> (r is Ok <==> torrent_add_of(a) is Some) && (
            r matches Ok(x) ==> torrent_add_of(a) == Some(x@)),
    {
        let v = value_from_response(response)?;
        TorrentAdd::from_json(&v)
    }
}

/// A path of a torrent after a rename.
#[derive(Debug)]
pub struct TorrentRenamePath {
    pub id: i64,
    pub name: String,
    pub path: String,
}

impl View for TorrentRenamePath {
    type V = (int, Seq<char>, Seq<char>);

    open spec fn view(&self) -> Self::V {
        (self.id as int, self.name@, self.path@)
    }
}

/// `{"id": <integer>, "name": <string>, "path": <string>}`
pub open spec fn rename_path_of(v: JsonV) -> Option<(int, Seq<char>, Seq<char>)> {
    match members(v) {
        Some(m) => match (int_field(m, "id"@), str_field(m, "name"@), str_field(m, "path"@)) {
            (Some(i), Some(n), Some(p)) => Some((i, n, p)),
            _ => None,
        },
        None => None,
    }
}

impl TorrentRenamePath {
    pub fn from_json(v: &Json) -> (r: Result<TorrentRenamePath, ClientError>)
        ensures
            r is Ok <==> rename_path_of(v@) is Some,
            r matches Ok(x) ==> rename_path_of(v@) == Some(x@),
            r matches Err(e) ==> e is Decode,
    {
        let m = object_members(v)?;
        let id = int_member(m, "id")?;
        let name = str_member(m, "name")?;
        let path = str_member(m, "path")?;
        Ok(TorrentRenamePath { id, name, path })
    }

    /// The typed result of a response.
    pub fn from_response(response: RpcResponse) -> (r: Result<TorrentRenamePath, ClientError>)
        ensures
            classified(response@) is None ==> (r matches Err(e) && classification_error(
                response@,
                e,
            )),
            classified(response@) matches Some(a) ==> (r is Ok <==> rename_path_of(a) is Some) && (
            r matches Ok(x) ==> rename_path_of(a) == Some(x@)),
    {
        let v = value_from_response(response)?;
        TorrentRenamePath::from_json(&v)
    }
}

} // verus!
