//! The executable resolver: one verified transition per host report.
//!
//! The host owns every effect — path lookup, filesystem probes, the index
//! query, download, permission bits, pruning — and performs exactly what the
//! returned [`Action`] says, then reports the outcome through the matching
//! `on_*` method.  Each method is proved to follow the corresponding
//! transition of [`crate::model`], so the decision order, the idempotence
//! gate and the cache discipline hold of every run the host can drive.

use vstd::pervasive::unreached;
use vstd::prelude::*;

use crate::error::Error;
use crate::model::{
    model_begin, model_on_aux_grant_failed, model_on_aux_granted, model_on_binary_probed,
    model_on_cache_probed, model_on_dir_create_failed, model_on_dir_created,
    model_on_download_failed, model_on_downloaded, model_on_exec_grant_failed,
    model_on_exec_granted, model_on_extract_failed, model_on_pruned, model_on_release,
    model_on_release_failed, opt_path_view, FetchFailureModel, ModelAction, ModelPhase, ModelState,
};
use crate::names::{aux_bin_dir, binary_path, version_dir_name};
use crate::platform::{Arch, PlatformDescriptor};
use crate::release::Release;
use crate::selector::{is_first_match, lemma_first_match_unique, select_asset};

verus! {

/// Transient lifecycle notice for the host's progress display; a side
/// channel, never a control dependency.
#[derive(Clone, Copy, PartialEq, Eq, Structural, Debug)]
pub enum InstallationStatus {
    Idle,
    CheckingForUpdate,
    Downloading,
}

/// Why the remote index query came back empty-handed: the index could not
/// be reached, or it answered and no stable, asset-bearing release exists.
#[derive(Clone, PartialEq, Eq, Debug)]
pub enum FetchFailure {
    Unavailable(String),
    NoQualifyingRelease,
}

impl View for FetchFailure {
    type V = FetchFailureModel;

    open spec fn view(&self) -> FetchFailureModel {
        match self {
            FetchFailure::Unavailable(cause) => FetchFailureModel::Unavailable(cause@),
            FetchFailure::NoQualifyingRelease => FetchFailureModel::NoQualifyingRelease,
        }
    }
}

/// What the resolver is waiting to hear; see [`ModelPhase`].
#[derive(Clone, PartialEq, Eq, Debug)]
pub enum Phase {
    Idle,
    AwaitCacheProbe { path: String, descriptor: PlatformDescriptor },
    AwaitRelease { descriptor: PlatformDescriptor },
    AwaitDirCreate { version_dir: String, binary_path: String, url: String },
    AwaitBinaryProbe { version_dir: String, binary_path: String, url: String },
    AwaitDownload { version_dir: String, binary_path: String },
    AwaitExecGrant { version_dir: String, binary_path: String },
    AwaitAuxGrant { version_dir: String, binary_path: String },
    AwaitPrune { version_dir: String, binary_path: String },
}

impl View for Phase {
    type V = ModelPhase;

    open spec fn view(&self) -> ModelPhase {
        match self {
            Phase::Idle => ModelPhase::Idle,
            Phase::AwaitCacheProbe { path, descriptor } => ModelPhase::AwaitCacheProbe {
                path: path@,
                descriptor: *descriptor,
            },
            Phase::AwaitRelease { descriptor } => ModelPhase::AwaitRelease {
                descriptor: *descriptor,
            },
            Phase::AwaitDirCreate { version_dir, binary_path, url } => ModelPhase::AwaitDirCreate {
                version_dir: version_dir@,
                binary_path: binary_path@,
                url: url@,
            },
            Phase::AwaitBinaryProbe { version_dir, binary_path, url } => (
            ModelPhase::AwaitBinaryProbe {
                version_dir: version_dir@,
                binary_path: binary_path@,
                url: url@,
            }),
            Phase::AwaitDownload { version_dir, binary_path } => ModelPhase::AwaitDownload {
                version_dir: version_dir@,
                binary_path: binary_path@,
            },
            Phase::AwaitExecGrant { version_dir, binary_path } => ModelPhase::AwaitExecGrant {
                version_dir: version_dir@,
                binary_path: binary_path@,
            },
            Phase::AwaitAuxGrant { version_dir, binary_path } => ModelPhase::AwaitAuxGrant {
                version_dir: version_dir@,
                binary_path: binary_path@,
            },
            Phase::AwaitPrune { version_dir, binary_path } => ModelPhase::AwaitPrune {
                version_dir: version_dir@,
                binary_path: binary_path@,
            },
        }
    }
}

/// What the resolver asks of the host next; see [`ModelAction`].
#[derive(Clone, PartialEq, Eq, Debug)]
pub enum Action {
    UsePath { path: String },
    ProbeCache { path: String },
    FetchRelease,
    CreateDir { version_dir: String },
    ProbeBinary { binary_path: String },
    Download { url: String, version_dir: String },
    GrantExec { binary_path: String },
    GrantAuxExec { aux_dir: String },
    Prune { keep_dir: String },
    Fail { error: Error },
}

impl View for Action {
    type V = ModelAction;

    open spec fn view(&self) -> ModelAction {
        match self {
            Action::UsePath { path } => ModelAction::UsePath { path: path@ },
            Action::ProbeCache { path } => ModelAction::ProbeCache { path: path@ },
            Action::FetchRelease => ModelAction::FetchRelease,
            Action::CreateDir { version_dir } => ModelAction::CreateDir {
                version_dir: version_dir@,
            },
            Action::ProbeBinary { binary_path } => ModelAction::ProbeBinary {
                binary_path: binary_path@,
            },
            Action::Download { url, version_dir } => ModelAction::Download {
                url: url@,
                version_dir: version_dir@,
            },
            Action::GrantExec { binary_path } => ModelAction::GrantExec {
                binary_path: binary_path@,
            },
            Action::GrantAuxExec { aux_dir } => ModelAction::GrantAuxExec { aux_dir: aux_dir@ },
            Action::Prune { keep_dir } => ModelAction::Prune { keep_dir: keep_dir@ },
            Action::Fail { error } => ModelAction::Fail { error: error@ },
        }
    }
}

/// The status to announce before performing an action: checking-for-update
/// ahead of the index query, downloading ahead of the fetch, nothing
/// otherwise.
pub open spec fn notification_of(a: ModelAction) -> InstallationStatus {
    match a {
        ModelAction::FetchRelease => InstallationStatus::CheckingForUpdate,
        ModelAction::Download { .. } => InstallationStatus::Downloading,
        _ => InstallationStatus::Idle,
    }
}

/// Which lifecycle notice, if any, the host announces before performing
/// `a`; `Idle` means none.
pub fn notification(a: &Action) -> (s: InstallationStatus)
    ensures
        s == notification_of(a@),
{
    match a {
        Action::FetchRelease => InstallationStatus::CheckingForUpdate,
        Action::Download { .. } => InstallationStatus::Downloading,
        _ => InstallationStatus::Idle,
    }
}

/// The fixed remote query a `FetchRelease` action stands for: which
/// repository to ask, and the release filter.
pub struct IndexQuery {
    /// The repository holding the tool's releases.
    pub repository: String,
    /// Releases without assets never qualify.
    pub require_assets: bool,
    /// Pre-releases never qualify; only stable releases do.
    pub pre_release: bool,
}

/// The one query the resolver ever wants answered: the latest stable,
/// asset-bearing release of the tool's repository.  A fixed policy, not
/// user-configurable.
pub fn index_query() -> (q: IndexQuery)
    ensures
        q.repository@ == "dafny-lang/dafny"@,
        q.require_assets,
        !q.pre_release,
{
    IndexQuery {
        repository: String::from_str("dafny-lang/dafny"),
        require_assets: true,
        pre_release: false,
    }
}

/// The resolver: the process-wide cached-path slot and the resolution in
/// flight.  One value lives for the whole process; each resolution call
/// runs `begin` and then answers every non-terminal action until `UsePath`
/// or `Fail` comes back.
pub struct Resolver {
    /// The last successfully provisioned or reused path; a lookup hint,
    /// re-probed on every use, never trusted blindly, never cleared.
    pub cached_binary_path: Option<String>,
    /// What the resolver is waiting to hear from the host.
    pub phase: Phase,
}

impl View for Resolver {
    type V = ModelState;

    open spec fn view(&self) -> ModelState {
        ModelState { cached: opt_path_view(self.cached_binary_path), phase: self.phase@ }
    }
}

impl Resolver {
    /// A fresh resolver: nothing cached, nothing in flight.
    pub fn new() -> (r: Resolver)
        ensures
            r@ == (ModelState { cached: None, phase: ModelPhase::Idle }),
    {
        Resolver { cached_binary_path: None, phase: Phase::Idle }
    }

    /// Starts a resolution call.  `which_path` is the environment's answer
    /// for an executable named `dafny`: if it names one, that binary wins
    /// outright — cache and remote are bypassed entirely.
    pub fn begin(&mut self, d: PlatformDescriptor, which_path: Option<String>) -> (a: Action)
        requires
            old(self)@.phase is Idle,
        ensures
            final(self)@ == model_begin(old(self)@, d, opt_path_view(which_path)).0,
            a@ == model_begin(old(self)@, d, opt_path_view(which_path)).1,
    {
        match which_path {
            Some(path) => Action::UsePath { path },
            None => {
                if d.arch == Arch::X86 {
                    Action::Fail { error: Error::UnsupportedPlatform }
                } else {
                    match &self.cached_binary_path {
                        Some(p) => {
                            let path = p.clone();
                            let probe = path.clone();
                            self.phase = Phase::AwaitCacheProbe { path, descriptor: d };
                            Action::ProbeCache { path: probe }
                        },
                        None => {
                            self.phase = Phase::AwaitRelease { descriptor: d };
                            Action::FetchRelease
                        },
                    }
                }
            },
        }
    }

    /// The host's answer to `ProbeCache`: whether the remembered path still
    /// is a regular file.
    pub fn on_cache_probed(&mut self, is_file: bool) -> (a: Action)
        requires
            old(self)@.phase is AwaitCacheProbe,
        ensures
            final(self)@ == model_on_cache_probed(old(self)@, is_file).0,
            a@ == model_on_cache_probed(old(self)@, is_file).1,
    {
        let (path, d) = match &self.phase {
            Phase::AwaitCacheProbe { path, descriptor } => (path.clone(), *descriptor),
            _ => unreached(),
        };
        if is_file {
            self.phase = Phase::Idle;
            Action::UsePath { path }
        } else {
            self.phase = Phase::AwaitRelease { descriptor: d };
            Action::FetchRelease
        }
    }

    /// The host's answer to `FetchRelease`: the latest stable,
    /// asset-bearing release the index reports.
    pub fn on_release(&mut self, release: &Release) -> (a: Action)
        requires
            old(self)@.phase is AwaitRelease,
        ensures
            final(self)@ == model_on_release(old(self)@, release@).0,
            a@ == model_on_release(old(self)@, release@).1,
    {
        let d = match &self.phase {
            Phase::AwaitRelease { descriptor } => *descriptor,
            _ => unreached(),
        };
        match select_asset(release, d) {
            Ok(asset) => {
                let version_dir = version_dir_name(release.version.as_str());
                let bin = binary_path(release.version.as_str(), d.os);
                let announce = version_dir.clone();
                proof {
                    let expected = crate::names::expected_asset_name_for(release@.version, d);
                    let w = choose|i: int|
                        is_first_match(release@.assets, expected, i) && asset@
                            == release@.assets[i];
                    let m = choose|i: int| is_first_match(release@.assets, expected, i);
                    lemma_first_match_unique(release@.assets, expected, w, m);
                }
                self.phase = Phase::AwaitDirCreate {
                    version_dir,
                    binary_path: bin,
                    url: asset.download_url,
                };
                Action::CreateDir { version_dir: announce }
            },
            Err(error) => {
                self.phase = Phase::Idle;
                Action::Fail { error }
            },
        }
    }

    /// The host's report that the index query failed.
    pub fn on_release_failed(&mut self, failure: FetchFailure) -> (a: Action)
        requires
            old(self)@.phase is AwaitRelease,
        ensures
            final(self)@ == model_on_release_failed(old(self)@, failure@).0,
            a@ == model_on_release_failed(old(self)@, failure@).1,
    {
        self.phase = Phase::Idle;
        match failure {
            FetchFailure::Unavailable(cause) => Action::Fail {
                error: Error::IndexUnavailable(cause),
            },
            FetchFailure::NoQualifyingRelease => Action::Fail {
                error: Error::NoQualifyingRelease,
            },
        }
    }

    /// The host's report that the version directory exists.
    pub fn on_dir_created(&mut self) -> (a: Action)
        requires
            old(self)@.phase is AwaitDirCreate,
        ensures
            final(self)@ == model_on_dir_created(old(self)@).0,
            a@ == model_on_dir_created(old(self)@).1,
    {
        let (version_dir, bin, url) = match &self.phase {
            Phase::AwaitDirCreate { version_dir, binary_path, url } => (
                version_dir.clone(),
                binary_path.clone(),
                url.clone(),
            ),
            _ => unreached(),
        };
        let announce = bin.clone();
        self.phase = Phase::AwaitBinaryProbe { version_dir, binary_path: bin, url };
        Action::ProbeBinary { binary_path: announce }
    }

    /// The host's report that the version directory could not be created.
    pub fn on_dir_create_failed(&mut self, cause: String) -> (a: Action)
        requires
            old(self)@.phase is AwaitDirCreate,
        ensures
            final(self)@ == model_on_dir_create_failed(old(self)@, cause@).0,
            a@ == model_on_dir_create_failed(old(self)@, cause@).1,
    {
        self.phase = Phase::Idle;
        Action::Fail { error: Error::DirectoryCreateFailed(cause) }
    }

    /// The host's answer to `ProbeBinary` — the idempotence gate.  An
    /// already-installed binary is remembered and reused with no download
    /// and no pruning; otherwise the archive is fetched.
    pub fn on_binary_probed(&mut self, is_file: bool) -> (a: Action)
        requires
            old(self)@.phase is AwaitBinaryProbe,
        ensures
            final(self)@ == model_on_binary_probed(old(self)@, is_file).0,
            a@ == model_on_binary_probed(old(self)@, is_file).1,
    {
        let (version_dir, bin, url) = match &self.phase {
            Phase::AwaitBinaryProbe { version_dir, binary_path, url } => (
                version_dir.clone(),
                binary_path.clone(),
                url.clone(),
            ),
            _ => unreached(),
        };
        if is_file {
            let path = bin.clone();
            self.cached_binary_path = Some(bin);
            self.phase = Phase::Idle;
            Action::UsePath { path }
        } else {
            self.phase = Phase::AwaitDownload { version_dir: version_dir.clone(), binary_path: bin };
            Action::Download { url, version_dir }
        }
    }

    /// The host's report that the archive was downloaded and unpacked.
    pub fn on_downloaded(&mut self) -> (a: Action)
        requires
            old(self)@.phase is AwaitDownload,
        ensures
            final(self)@ == model_on_downloaded(old(self)@).0,
            a@ == model_on_downloaded(old(self)@).1,
    {
        let (version_dir, bin) = match &self.phase {
            Phase::AwaitDownload { version_dir, binary_path } => (
                version_dir.clone(),
                binary_path.clone(),
            ),
            _ => unreached(),
        };
        let announce = bin.clone();
        self.phase = Phase::AwaitExecGrant { version_dir, binary_path: bin };
        Action::GrantExec { binary_path: announce }
    }

    /// The host's report that the download failed.
    pub fn on_download_failed(&mut self, cause: String) -> (a: Action)
        requires
            old(self)@.phase is AwaitDownload,
        ensures
            final(self)@ == model_on_download_failed(old(self)@, cause@).0,
            a@ == model_on_download_failed(old(self)@, cause@).1,
    {
        self.phase = Phase::Idle;
        Action::Fail { error: Error::DownloadFailed(cause) }
    }

    /// The host's report that unpacking the archive failed.
    pub fn on_extract_failed(&mut self, cause: String) -> (a: Action)
        requires
            old(self)@.phase is AwaitDownload,
        ensures
            final(self)@ == model_on_extract_failed(old(self)@, cause@).0,
            a@ == model_on_extract_failed(old(self)@, cause@).1,
    {
        self.phase = Phase::Idle;
        Action::Fail { error: Error::ExtractFailed(cause) }
    }

    /// The host's report that the binary's execute bit is set.
    pub fn on_exec_granted(&mut self) -> (a: Action)
        requires
            old(self)@.phase is AwaitExecGrant,
        ensures
            final(self)@ == model_on_exec_granted(old(self)@).0,
            a@ == model_on_exec_granted(old(self)@).1,
    {
        let (version_dir, bin) = match &self.phase {
            Phase::AwaitExecGrant { version_dir, binary_path } => (
                version_dir.clone(),
                binary_path.clone(),
            ),
            _ => unreached(),
        };
        let aux = aux_bin_dir(version_dir.as_str());
        self.phase = Phase::AwaitAuxGrant { version_dir, binary_path: bin };
        Action::GrantAuxExec { aux_dir: aux }
    }

    /// The host's report that granting the binary's execute bit failed.
    pub fn on_exec_grant_failed(&mut self, cause: String) -> (a: Action)
        requires
            old(self)@.phase is AwaitExecGrant,
        ensures
            final(self)@ == model_on_exec_grant_failed(old(self)@, cause@).0,
            a@ == model_on_exec_grant_failed(old(self)@, cause@).1,
    {
        self.phase = Phase::Idle;
        Action::Fail { error: Error::PermissionGrantFailed(cause) }
    }

    /// The host's report that every auxiliary file got its execute bit, or
    /// that the auxiliary directory does not exist — which is no error.
    pub fn on_aux_granted(&mut self) -> (a: Action)
        requires
            old(self)@.phase is AwaitAuxGrant,
        ensures
            final(self)@ == model_on_aux_granted(old(self)@).0,
            a@ == model_on_aux_granted(old(self)@).1,
    {
        let (version_dir, bin) = match &self.phase {
            Phase::AwaitAuxGrant { version_dir, binary_path } => (
                version_dir.clone(),
                binary_path.clone(),
            ),
            _ => unreached(),
        };
        let keep = version_dir.clone();
        self.phase = Phase::AwaitPrune { version_dir, binary_path: bin };
        Action::Prune { keep_dir: keep }
    }

    /// The host's report that granting an auxiliary execute bit failed.
    pub fn on_aux_grant_failed(&mut self, cause: String) -> (a: Action)
        requires
            old(self)@.phase is AwaitAuxGrant,
        ensures
            final(self)@ == model_on_aux_grant_failed(old(self)@, cause@).0,
            a@ == model_on_aux_grant_failed(old(self)@, cause@).1,
    {
        self.phase = Phase::Idle;
        Action::Fail { error: Error::PermissionGrantFailed(cause) }
    }

    /// The host's report that stale sibling directories were handled
    /// (individual removal errors having been ignored): the fresh path is
    /// remembered and handed out.
    pub fn on_pruned(&mut self) -> (a: Action)
        requires
            old(self)@.phase is AwaitPrune,
        ensures
            final(self)@ == model_on_pruned(old(self)@).0,
            a@ == model_on_pruned(old(self)@).1,
    {
        let bin = match &self.phase {
            Phase::AwaitPrune { version_dir: _, binary_path } => binary_path.clone(),
            _ => unreached(),
        };
        let path = bin.clone();
        self.cached_binary_path = Some(bin);
        self.phase = Phase::Idle;
        Action::UsePath { path }
    }
}

} // verus!
