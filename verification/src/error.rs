use vstd::prelude::*;

verus! {

/// Errors that the installer reports.
#[derive(Debug)]
pub enum ProtoInstallerError {
    /// The host operating system and architecture have no published release.
    InvalidPlatform { arch: String, os: String },
    /// The release could not be fetched from `url`; `error` describes why.
    DownloadFailed { url: String, error: String },
    /// The release server answered with a status other than success.
    DownloadNotAvailable { version: String, status: u16 },
}

} // verus!
