//! Deterministic selection of the one asset matching this platform.

use vstd::prelude::*;

use crate::error::Error;
use crate::names::{expected_asset_name, expected_asset_name_for};
use crate::platform::PlatformDescriptor;
use crate::release::{Asset, AssetModel, Release};

verus! {

/// Whether the asset at position `i` carries exactly the expected name.
pub open spec fn matches_at(assets: Seq<AssetModel>, expected: Seq<char>, i: int) -> bool {
    0 <= i < assets.len() && assets[i].name == expected
}

/// Whether position `i` holds the first asset with the expected name.
pub open spec fn is_first_match(assets: Seq<AssetModel>, expected: Seq<char>, i: int) -> bool {
    matches_at(assets, expected, i) && (forall|j: int|
        0 <= j < i ==> assets[j].name != expected)
}

/// Wherever some asset matches, a first matching asset exists.
pub proof fn lemma_first_match_exists(assets: Seq<AssetModel>, expected: Seq<char>, i: int)
    requires
        matches_at(assets, expected, i),
    ensures
        exists|k: int| is_first_match(assets, expected, k),
    decreases i,
{
    if forall|j: int| 0 <= j < i ==> assets[j].name != expected {
        assert(is_first_match(assets, expected, i));
    } else {
        let j = choose|j: int| 0 <= j < i && assets[j].name == expected;
        lemma_first_match_exists(assets, expected, j);
    }
}

/// At most one position holds the first match.
pub proof fn lemma_first_match_unique(
    assets: Seq<AssetModel>,
    expected: Seq<char>,
    i: int,
    k: int,
)
    requires
        is_first_match(assets, expected, i),
        is_first_match(assets, expected, k),
    ensures
        i == k,
{
}

/// Picks the one asset of `release` whose name equals the expected artifact
/// name for this platform — the first such, and by exact equality, never a
/// pattern.  No match is a hard failure carrying the name that was searched
/// for; an unsupported platform is rejected outright.
pub fn select_asset(release: &Release, d: PlatformDescriptor) -> (r: Result<Asset, Error>)
    ensures
        !d.supported() ==> r == Err::<Asset, Error>(Error::UnsupportedPlatform),
        d.supported() ==> {
            let expected = expected_asset_name_for(release.version@, d);
            let assets = release@.assets;
            &&& (r is Ok <==> exists|i: int| matches_at(assets, expected, i))
            &&& (r matches Ok(a) ==> exists|i: int|
                is_first_match(assets, expected, i) && a@ == assets[i])
            &&& (r matches Err(e) ==> e@ == crate::error::ErrorModel::AssetNotFound(expected))
        },
{
    let expected = match expected_asset_name(release.version.as_str(), d) {
        Ok(name) => name,
        Err(e) => {
            return Err(e);
        },
    };
    let ghost assets = release@.assets;
    let n: usize = release.assets.len();
    let mut i: usize = 0;
    while i < n
        invariant
            d.supported(),
            n == release.assets.len(),
            i <= n,
            assets == release@.assets,
            expected@ == expected_asset_name_for(release.version@, d),
            forall|j: int| 0 <= j < i ==> assets[j].name != expected@,
        decreases n - i,
    {
        let candidate = &release.assets[i];
        if candidate.name == expected {
            let chosen = candidate.duplicate();
            proof {
                assert(chosen@ == assets[i as int]);
                assert(is_first_match(assets, expected@, i as int));
            }
            return Ok(chosen);
        }
        i = i + 1;
    }
    Err(Error::AssetNotFound(expected))
}

} // verus!
