use vstd::prelude::*;

verus! {

/// netc's error for a failed HTTP exchange; the transport around the library produces it.
#[verifier::external_type_specification]
#[verifier::external_body]
pub struct ExNcError(netc::Error);

/// std's error for a failed read of a local file; the code around the library produces it.
#[verifier::external_type_specification]
#[verifier::external_body]
pub struct ExIoError(std::io::Error);

/// Everything a call can fail with.
#[derive(Debug)]
pub enum ClientError {
    /// The exchange with the server failed at the transport.
    Nc(netc::Error),
    /// The bytes of a response are no JSON text.
    Json(serde_json::Error),
    /// The JSON is well formed, but the member named here has not the expected shape
    /// (the empty name stands for the value as a whole).
    Decode(String),
    /// The server answered with a result other than `success`; the text is its result.
    BadResponse(String),
    /// A successful response carries no arguments.
    NoArguments,
    /// A session-set request names a field that the server does not let a client change.
    WrongSessionSetFields,
    /// Reading a local file failed.
    Io(std::io::Error),
    /// The server refused the client as unauthorized.
    NotAuth,
    /// An add request names both a file and metadata.
    BothFileMeta,
    /// An add request names neither a file nor metadata.
    NoFileMeta,
    /// A name matches no torrent field.
    UnknownTorrentFields,
}

} // verus!
