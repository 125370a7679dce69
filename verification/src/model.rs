//! The mathematical model of a resolution call.
//!
//! A resolution is a dialogue: the resolver hands the host one action at a
//! time, the host performs it and reports the outcome, and the resolver
//! decides the next step.  The functions here are the specification of that
//! dialogue — one total transition per reported outcome, over sequences of
//! characters — and the executable resolver is proved to follow them
//! exactly.

use vstd::pervasive::arbitrary;
use vstd::prelude::*;

use crate::error::ErrorModel;
use crate::names::{aux_bin_dir_for, binary_path_for, expected_asset_name_for, version_dir_for};
use crate::platform::PlatformDescriptor;
use crate::release::ReleaseModel;
use crate::selector::{is_first_match, matches_at};

verus! {

/// What the resolver is waiting to hear from the host.
pub enum ModelPhase {
    /// No resolution is in flight; every call ends back here.
    Idle,
    /// Waiting to hear whether the remembered path is still a regular file.
    AwaitCacheProbe { path: Seq<char>, descriptor: PlatformDescriptor },
    /// Waiting for the remote index's latest stable, asset-bearing release.
    AwaitRelease { descriptor: PlatformDescriptor },
    /// Waiting for the version directory to be created.
    AwaitDirCreate { version_dir: Seq<char>, binary_path: Seq<char>, url: Seq<char> },
    /// Waiting to hear whether the binary is already installed there.
    AwaitBinaryProbe { version_dir: Seq<char>, binary_path: Seq<char>, url: Seq<char> },
    /// Waiting for the archive to be downloaded and unpacked.
    AwaitDownload { version_dir: Seq<char>, binary_path: Seq<char> },
    /// Waiting for the execute bit on the binary itself.
    AwaitExecGrant { version_dir: Seq<char>, binary_path: Seq<char> },
    /// Waiting for the best-effort execute bits on bundled auxiliary tools.
    AwaitAuxGrant { version_dir: Seq<char>, binary_path: Seq<char> },
    /// Waiting for stale sibling version directories to be removed.
    AwaitPrune { version_dir: Seq<char>, binary_path: Seq<char> },
}

/// The resolver's entire state: the process-wide cached path slot and the
/// phase of the resolution in flight, if any.
pub struct ModelState {
    pub cached: Option<Seq<char>>,
    pub phase: ModelPhase,
}

/// What the resolver asks of the host next.  `UsePath` and `Fail` end the
/// resolution; every other action owes the resolver an answer.
pub enum ModelAction {
    /// Resolution is complete: launch this binary.
    UsePath { path: Seq<char> },
    /// Check whether this path is an existing regular file.
    ProbeCache { path: Seq<char> },
    /// Announce checking-for-update, then query the remote index for the
    /// latest stable release that carries assets.
    FetchRelease,
    /// Create this directory, recursively.
    CreateDir { version_dir: Seq<char> },
    /// Check whether this path is an existing regular file.
    ProbeBinary { binary_path: Seq<char> },
    /// Announce downloading, then fetch the zip archive at `url` and unpack
    /// it into `version_dir`.
    Download { url: Seq<char>, version_dir: Seq<char> },
    /// Grant the execute bit on the installed binary.
    GrantExec { binary_path: Seq<char> },
    /// Grant the execute bit on every file in this directory; if the
    /// directory does not exist, skip silently.
    GrantAuxExec { aux_dir: Seq<char> },
    /// Remove every entry of the working root except `keep_dir`, ignoring
    /// individual removal errors.
    Prune { keep_dir: Seq<char> },
    /// Resolution failed; nothing further may be done for it.
    Fail { error: ErrorModel },
}

/// Why the remote index query came back empty-handed.
pub enum FetchFailureModel {
    Unavailable(Seq<char>),
    NoQualifyingRelease,
}

/// The view of an optional owned path.
pub open spec fn opt_path_view(o: Option<String>) -> Option<Seq<char>> {
    match o {
        Some(p) => Some(p@),
        None => None,
    }
}

/// Starting a resolution: a binary visible in the environment wins
/// unconditionally; an unsupported platform is rejected before any network
/// or filesystem activity; otherwise a remembered path is probed first, and
/// only with none remembered is the remote index consulted.
pub open spec fn model_begin(
    s: ModelState,
    d: PlatformDescriptor,
    which: Option<Seq<char>>,
) -> (ModelState, ModelAction) {
    match which {
        Some(path) => (
            ModelState { cached: s.cached, phase: ModelPhase::Idle },
            ModelAction::UsePath { path },
        ),
        None => {
            if !d.supported() {
                (
                    ModelState { cached: s.cached, phase: ModelPhase::Idle },
                    ModelAction::Fail { error: ErrorModel::UnsupportedPlatform },
                )
            } else {
                match s.cached {
                    Some(path) => (
                        ModelState {
                            cached: s.cached,
                            phase: ModelPhase::AwaitCacheProbe { path, descriptor: d },
                        },
                        ModelAction::ProbeCache { path },
                    ),
                    None => (
                        ModelState {
                            cached: s.cached,
                            phase: ModelPhase::AwaitRelease { descriptor: d },
                        },
                        ModelAction::FetchRelease,
                    ),
                }
            }
        },
    }
}

/// A still-valid remembered path is reused as is; a stale one falls through
/// to the remote index.
pub open spec fn model_on_cache_probed(s: ModelState, is_file: bool) -> (ModelState, ModelAction) {
    match s.phase {
        ModelPhase::AwaitCacheProbe { path, descriptor } => {
            if is_file {
                (
                    ModelState { cached: s.cached, phase: ModelPhase::Idle },
                    ModelAction::UsePath { path },
                )
            } else {
                (
                    ModelState { cached: s.cached, phase: ModelPhase::AwaitRelease { descriptor } },
                    ModelAction::FetchRelease,
                )
            }
        },
        _ => arbitrary(),
    }
}

/// The release is in hand: pick the first asset carrying the expected
/// artifact name, then have the version directory created; no matching
/// asset is a hard failure naming what was searched for.
pub open spec fn model_on_release(s: ModelState, r: ReleaseModel) -> (ModelState, ModelAction) {
    match s.phase {
        ModelPhase::AwaitRelease { descriptor } => {
            if !descriptor.supported() {
                (
                    ModelState { cached: s.cached, phase: ModelPhase::Idle },
                    ModelAction::Fail { error: ErrorModel::UnsupportedPlatform },
                )
            } else {
                let expected = expected_asset_name_for(r.version, descriptor);
                if exists|i: int| matches_at(r.assets, expected, i) {
                    let i = choose|i: int| is_first_match(r.assets, expected, i);
                    let version_dir = version_dir_for(r.version);
                    let binary_path = binary_path_for(r.version, descriptor.os);
                    (
                        ModelState {
                            cached: s.cached,
                            phase: ModelPhase::AwaitDirCreate {
                                version_dir,
                                binary_path,
                                url: r.assets[i].download_url,
                            },
                        },
                        ModelAction::CreateDir { version_dir },
                    )
                } else {
                    (
                        ModelState { cached: s.cached, phase: ModelPhase::Idle },
                        ModelAction::Fail { error: ErrorModel::AssetNotFound(expected) },
                    )
                }
            }
        },
        _ => arbitrary(),
    }
}

/// A failed index query ends the resolution with the corresponding error.
pub open spec fn model_on_release_failed(s: ModelState, f: FetchFailureModel) -> (
    ModelState,
    ModelAction,
) {
    match s.phase {
        ModelPhase::AwaitRelease { descriptor } => (
            ModelState { cached: s.cached, phase: ModelPhase::Idle },
            ModelAction::Fail {
                error: match f {
                    FetchFailureModel::Unavailable(cause) => ErrorModel::IndexUnavailable(cause),
                    FetchFailureModel::NoQualifyingRelease => ErrorModel::NoQualifyingRelease,
                },
            },
        ),
        _ => arbitrary(),
    }
}

/// With the version directory in place, ask whether the binary already
/// exists there — the idempotence gate.
pub open spec fn model_on_dir_created(s: ModelState) -> (ModelState, ModelAction) {
    match s.phase {
        ModelPhase::AwaitDirCreate { version_dir, binary_path, url } => (
            ModelState {
                cached: s.cached,
                phase: ModelPhase::AwaitBinaryProbe { version_dir, binary_path, url },
            },
            ModelAction::ProbeBinary { binary_path },
        ),
        _ => arbitrary(),
    }
}

pub open spec fn model_on_dir_create_failed(s: ModelState, cause: Seq<char>) -> (
    ModelState,
    ModelAction,
) {
    match s.phase {
        ModelPhase::AwaitDirCreate { .. } => (
            ModelState { cached: s.cached, phase: ModelPhase::Idle },
            ModelAction::Fail { error: ErrorModel::DirectoryCreateFailed(cause) },
        ),
        _ => arbitrary(),
    }
}

/// The idempotence gate proper: an already-installed binary is reused with
/// no download and no pruning; otherwise the archive is fetched.
pub open spec fn model_on_binary_probed(s: ModelState, is_file: bool) -> (ModelState, ModelAction) {
    match s.phase {
        ModelPhase::AwaitBinaryProbe { version_dir, binary_path, url } => {
            if is_file {
                (
                    ModelState { cached: Some(binary_path), phase: ModelPhase::Idle },
                    ModelAction::UsePath { path: binary_path },
                )
            } else {
                (
                    ModelState {
                        cached: s.cached,
                        phase: ModelPhase::AwaitDownload { version_dir, binary_path },
                    },
                    ModelAction::Download { url, version_dir },
                )
            }
        },
        _ => arbitrary(),
    }
}

pub open spec fn model_on_downloaded(s: ModelState) -> (ModelState, ModelAction) {
    match s.phase {
        ModelPhase::AwaitDownload { version_dir, binary_path } => (
            ModelState {
                cached: s.cached,
                phase: ModelPhase::AwaitExecGrant { version_dir, binary_path },
            },
            ModelAction::GrantExec { binary_path },
        ),
        _ => arbitrary(),
    }
}

pub open spec fn model_on_download_failed(s: ModelState, cause: Seq<char>) -> (
    ModelState,
    ModelAction,
) {
    match s.phase {
        ModelPhase::AwaitDownload { .. } => (
            ModelState { cached: s.cached, phase: ModelPhase::Idle },
            ModelAction::Fail { error: ErrorModel::DownloadFailed(cause) },
        ),
        _ => arbitrary(),
    }
}

pub open spec fn model_on_extract_failed(s: ModelState, cause: Seq<char>) -> (
    ModelState,
    ModelAction,
) {
    match s.phase {
        ModelPhase::AwaitDownload { .. } => (
            ModelState { cached: s.cached, phase: ModelPhase::Idle },
            ModelAction::Fail { error: ErrorModel::ExtractFailed(cause) },
        ),
        _ => arbitrary(),
    }
}

pub open spec fn model_on_exec_granted(s: ModelState) -> (ModelState, ModelAction) {
    match s.phase {
        ModelPhase::AwaitExecGrant { version_dir, binary_path } => (
            ModelState {
                cached: s.cached,
                phase: ModelPhase::AwaitAuxGrant { version_dir, binary_path },
            },
            ModelAction::GrantAuxExec { aux_dir: aux_bin_dir_for(version_dir) },
        ),
        _ => arbitrary(),
    }
}

pub open spec fn model_on_exec_grant_failed(s: ModelState, cause: Seq<char>) -> (
    ModelState,
    ModelAction,
) {
    match s.phase {
        ModelPhase::AwaitExecGrant { .. } => (
            ModelState { cached: s.cached, phase: ModelPhase::Idle },
            ModelAction::Fail { error: ErrorModel::PermissionGrantFailed(cause) },
        ),
        _ => arbitrary(),
    }
}

/// Auxiliary grants done (or their directory absent — not an error): prune
/// every sibling of the fresh version directory.
pub open spec fn model_on_aux_granted(s: ModelState) -> (ModelState, ModelAction) {
    match s.phase {
        ModelPhase::AwaitAuxGrant { version_dir, binary_path } => (
            ModelState {
                cached: s.cached,
                phase: ModelPhase::AwaitPrune { version_dir, binary_path },
            },
            ModelAction::Prune { keep_dir: version_dir },
        ),
        _ => arbitrary(),
    }
}

pub open spec fn model_on_aux_grant_failed(s: ModelState, cause: Seq<char>) -> (
    ModelState,
    ModelAction,
) {
    match s.phase {
        ModelPhase::AwaitAuxGrant { .. } => (
            ModelState { cached: s.cached, phase: ModelPhase::Idle },
            ModelAction::Fail { error: ErrorModel::PermissionGrantFailed(cause) },
        ),
        _ => arbitrary(),
    }
}

/// Pruning done: remember the freshly installed path and hand it out.
pub open spec fn model_on_pruned(s: ModelState) -> (ModelState, ModelAction) {
    match s.phase {
        ModelPhase::AwaitPrune { version_dir, binary_path } => (
            ModelState { cached: Some(binary_path), phase: ModelPhase::Idle },
            ModelAction::UsePath { path: binary_path },
        ),
        _ => arbitrary(),
    }
}

} // verus!
