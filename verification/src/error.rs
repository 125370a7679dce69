//! The error taxonomy of a resolution call.
//!
//! Every fatal condition of the pipeline surfaces as one of these variants;
//! best-effort steps (auxiliary permission enumeration when the directory is
//! absent, stale-directory removal during pruning) never produce one.

use vstd::prelude::*;

verus! {

/// A fatal resolution failure.  Variants that carry a `String` hold the
/// underlying cause reported by the host, except `AssetNotFound`, which
/// holds the exact artifact name that was searched for.
#[derive(Clone, PartialEq, Eq, Debug)]
pub enum Error {
    /// The running architecture has no published artifact; raised before any
    /// network or filesystem activity.
    UnsupportedPlatform,
    /// The remote release index could not be reached.
    IndexUnavailable(String),
    /// The index answered, but no stable, asset-bearing release exists.
    NoQualifyingRelease,
    /// No asset of the release carries the expected artifact name.
    AssetNotFound(String),
    /// The version-scoped install directory could not be created.
    DirectoryCreateFailed(String),
    /// Downloading the selected asset's archive failed.
    DownloadFailed(String),
    /// Unpacking the downloaded archive failed.
    ExtractFailed(String),
    /// The execute bit could not be granted.
    PermissionGrantFailed(String),
}

/// The mathematical shape of an [`Error`]: the same variants over `Seq<char>`.
pub enum ErrorModel {
    UnsupportedPlatform,
    IndexUnavailable(Seq<char>),
    NoQualifyingRelease,
    AssetNotFound(Seq<char>),
    DirectoryCreateFailed(Seq<char>),
    DownloadFailed(Seq<char>),
    ExtractFailed(Seq<char>),
    PermissionGrantFailed(Seq<char>),
}

impl View for Error {
    type V = ErrorModel;

    open spec fn view(&self) -> ErrorModel {
        match self {
            Error::UnsupportedPlatform => ErrorModel::UnsupportedPlatform,
            Error::IndexUnavailable(c) => ErrorModel::IndexUnavailable(c@),
            Error::NoQualifyingRelease => ErrorModel::NoQualifyingRelease,
            Error::AssetNotFound(n) => ErrorModel::AssetNotFound(n@),
            Error::DirectoryCreateFailed(c) => ErrorModel::DirectoryCreateFailed(c@),
            Error::DownloadFailed(c) => ErrorModel::DownloadFailed(c@),
            Error::ExtractFailed(c) => ErrorModel::ExtractFailed(c@),
            Error::PermissionGrantFailed(c) => ErrorModel::PermissionGrantFailed(c@),
        }
    }
}

/// The diagnostic text of each error, as handed to the host: a fixed
/// description, with the underlying cause appended where one exists.
pub open spec fn message_of(e: ErrorModel) -> Seq<char> {
    match e {
        ErrorModel::UnsupportedPlatform => "unsupported architecture"@,
        ErrorModel::IndexUnavailable(c) => c,
        ErrorModel::NoQualifyingRelease => "no qualifying release found"@,
        ErrorModel::AssetNotFound(n) => "no asset found matching \""@ + n + "\""@,
        ErrorModel::DirectoryCreateFailed(c) => "failed to create directory: "@ + c,
        ErrorModel::DownloadFailed(c) => "failed to download file: "@ + c,
        ErrorModel::ExtractFailed(c) => "failed to extract archive: "@ + c,
        ErrorModel::PermissionGrantFailed(c) => c,
    }
}

impl Error {
    /// Renders the error for display, exactly as [`message_of`] states.
    pub fn message(&self) -> (r: String)
        ensures
            r@ == message_of(self@),
    {
        match self {
            Error::UnsupportedPlatform => String::from_str("unsupported architecture"),
            Error::IndexUnavailable(c) => c.clone(),
            Error::NoQualifyingRelease => String::from_str("no qualifying release found"),
            Error::AssetNotFound(n) => {
                let r = String::from_str("no asset found matching \"").concat(n.as_str()).concat(
                    "\"",
                );
                proof {
                    assert(r@ =~= message_of(self@));
                }
                r
            },
            Error::DirectoryCreateFailed(c) => String::from_str("failed to create directory: ")
                .concat(c.as_str()),
            Error::DownloadFailed(c) => String::from_str("failed to download file: ").concat(
                c.as_str(),
            ),
            Error::ExtractFailed(c) => String::from_str("failed to extract archive: ").concat(
                c.as_str(),
            ),
            Error::PermissionGrantFailed(c) => c.clone(),
        }
    }
}

} // verus!
