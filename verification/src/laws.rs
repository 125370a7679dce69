//! The library's laws: properties of whole resolution calls, proved once
//! and for all over the model that every resolver method is held to.
//!
//! A resolution call is `begin` followed by one transition per host report,
//! until `UsePath` or `Fail`.  A terminal step leaves the phase `Idle`, and
//! every non-terminal action is issued exactly by the transition shown to
//! issue it — so "no download happens" and the like are read off the
//! transition chain directly.

use vstd::prelude::*;

use crate::error::ErrorModel;
use crate::model::{
    model_begin, model_on_aux_granted, model_on_binary_probed, model_on_cache_probed,
    model_on_dir_created, model_on_downloaded, model_on_exec_granted, model_on_pruned,
    model_on_release, ModelAction, ModelPhase, ModelState,
};
use crate::names::{
    aux_bin_dir_for, binary_filename, binary_path_for, expected_asset_name_for, version_dir_for,
};
use crate::platform::PlatformDescriptor;
use crate::release::ReleaseModel;
use crate::selector::{is_first_match, lemma_first_match_exists, matches_at};

verus! {

/// A binary named by the environment wins every resolution call outright:
/// it is returned as is, the cache slot is left untouched, and the call
/// ends at once — no index query, no provisioning, no pruning is ever
/// requested.
pub proof fn law_environment_path_wins(s: ModelState, d: PlatformDescriptor, path: Seq<char>)
    requires
        s.phase is Idle,
    ensures
        model_begin(s, d, Some(path)).1 == (ModelAction::UsePath { path }),
        model_begin(s, d, Some(path)).0.phase is Idle,
        model_begin(s, d, Some(path)).0.cached == s.cached,
{
}

/// The one unsupported architecture is rejected at the very first step of
/// the call, whatever the operating system and whatever is cached: the
/// call ends with `UnsupportedPlatform` before any network or filesystem
/// activity could be requested.
pub proof fn law_unsupported_platform_rejected_first(s: ModelState, d: PlatformDescriptor)
    requires
        s.phase is Idle,
        !d.supported(),
    ensures
        model_begin(s, d, None).1 == (ModelAction::Fail { error: ErrorModel::UnsupportedPlatform }),
        model_begin(s, d, None).0.phase is Idle,
        model_begin(s, d, None).0.cached == s.cached,
{
}

/// A remembered path that still is a regular file is reused: the call
/// probes it and returns it, with the cache unchanged and no remote
/// interaction — `FetchRelease` is never among the issued actions.
pub proof fn law_valid_cache_short_circuits(s: ModelState, d: PlatformDescriptor, path: Seq<char>)
    requires
        s.phase is Idle,
        s.cached == Some(path),
        d.supported(),
    ensures
        model_begin(s, d, None).1 == (ModelAction::ProbeCache { path }),
        model_on_cache_probed(model_begin(s, d, None).0, true).1 == (ModelAction::UsePath { path }),
        model_on_cache_probed(model_begin(s, d, None).0, true).0.phase is Idle,
        model_on_cache_probed(model_begin(s, d, None).0, true).0.cached == Some(path),
{
}

/// The idempotence gate: wherever the binary path already is a regular
/// file, the install is reused — the step returns the path, remembers it,
/// and ends the call, so no `Download` and no `Prune` is requested.
pub proof fn law_existing_install_skips_download(
    s: ModelState,
    version_dir: Seq<char>,
    binary_path: Seq<char>,
    url: Seq<char>,
)
    requires
        s.phase == (ModelPhase::AwaitBinaryProbe { version_dir, binary_path, url }),
    ensures
        model_on_binary_probed(s, true).1 == (ModelAction::UsePath { path: binary_path }),
        !(model_on_binary_probed(s, true).1 is Download),
        model_on_binary_probed(s, true).0.phase is Idle,
        model_on_binary_probed(s, true).0.cached == Some(binary_path),
{
}

/// A fresh install runs the whole pipeline in order — fetch, create the
/// version directory (raw tag), probe, download the first matching asset,
/// grant the execute bits, prune everything but the fresh directory — and
/// ends with the binary path returned and cached.  The returned path ends
/// in the platform's binary filename.
pub proof fn law_fresh_install_runs_full_pipeline(
    s: ModelState,
    d: PlatformDescriptor,
    r: ReleaseModel,
)
    requires
        s.phase is Idle,
        s.cached is None,
        d.supported(),
        exists|i: int| matches_at(r.assets, expected_asset_name_for(r.version, d), i),
    ensures
        ({
            let expected = expected_asset_name_for(r.version, d);
            let version_dir = version_dir_for(r.version);
            let binary_path = binary_path_for(r.version, d.os);
            let (s1, a1) = model_begin(s, d, None);
            let (s2, a2) = model_on_release(s1, r);
            let (s3, a3) = model_on_dir_created(s2);
            let (s4, a4) = model_on_binary_probed(s3, false);
            let (s5, a5) = model_on_downloaded(s4);
            let (s6, a6) = model_on_exec_granted(s5);
            let (s7, a7) = model_on_aux_granted(s6);
            let (s8, a8) = model_on_pruned(s7);
            &&& a1 == ModelAction::FetchRelease
            &&& a2 == (ModelAction::CreateDir { version_dir })
            &&& a3 == (ModelAction::ProbeBinary { binary_path })
            &&& (exists|i: int|
                is_first_match(r.assets, expected, i) && a4 == (ModelAction::Download {
                    url: r.assets[i].download_url,
                    version_dir,
                }))
            &&& a5 == (ModelAction::GrantExec { binary_path })
            &&& a6 == (ModelAction::GrantAuxExec { aux_dir: aux_bin_dir_for(version_dir) })
            &&& a7 == (ModelAction::Prune { keep_dir: version_dir })
            &&& a8 == (ModelAction::UsePath { path: binary_path })
            &&& s8.cached == Some(binary_path)
            &&& s8.phase is Idle
        }),
{
    let expected = expected_asset_name_for(r.version, d);
    let w = choose|i: int| matches_at(r.assets, expected, i);
    lemma_first_match_exists(r.assets, expected, w);
    let m = choose|i: int| is_first_match(r.assets, expected, i);
    assert(is_first_match(r.assets, expected, m));
}

/// The path a fresh install returns ends in the platform's binary
/// filename: the last characters of `binary_path_for` are exactly
/// `binary_filename`.
pub proof fn law_binary_path_ends_in_binary_filename(version_tag: Seq<char>, d: PlatformDescriptor)
    ensures
        ({
            let path = binary_path_for(version_tag, d.os);
            let name = binary_filename(d.os);
            &&& path.len() >= name.len()
            &&& path.subrange(path.len() - name.len(), path.len() as int) == name
        }),
{
    let path = binary_path_for(version_tag, d.os);
    let name = binary_filename(d.os);
    assert(path.subrange(path.len() - name.len(), path.len() as int) =~= name);
}

} // verus!
