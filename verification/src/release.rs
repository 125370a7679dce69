//! Releases and their downloadable assets, as the remote index reports them.

use vstd::prelude::*;

verus! {

/// One downloadable artifact attached to a release.
#[derive(Clone, PartialEq, Eq, Debug)]
pub struct Asset {
    /// The artifact's exact published name; assets are matched by equality
    /// on it, never by pattern.
    pub name: String,
    /// Where the artifact's archive can be fetched from.
    pub download_url: String,
}

/// A tagged, published version of the tool, with its artifacts.  Produced by
/// the remote index; read-only afterwards.
#[derive(Clone, PartialEq, Eq, Debug)]
pub struct Release {
    /// The version tag as published, possibly carrying a leading `"v"`.
    pub version: String,
    /// The release's artifacts, in the order the index lists them.
    pub assets: Vec<Asset>,
}

/// The mathematical shape of an [`Asset`].
pub struct AssetModel {
    pub name: Seq<char>,
    pub download_url: Seq<char>,
}

/// The mathematical shape of a [`Release`].
pub struct ReleaseModel {
    pub version: Seq<char>,
    pub assets: Seq<AssetModel>,
}

impl View for Asset {
    type V = AssetModel;

    open spec fn view(&self) -> AssetModel {
        AssetModel { name: self.name@, download_url: self.download_url@ }
    }
}

impl View for Release {
    type V = ReleaseModel;

    open spec fn view(&self) -> ReleaseModel {
        ReleaseModel { version: self.version@, assets: self.assets@.map_values(|a: Asset| a@) }
    }
}

impl Asset {
    /// An identical copy, field by field.
    pub fn duplicate(&self) -> (r: Asset)
        ensures
            r == *self,
    {
        Asset { name: self.name.clone(), download_url: self.download_url.clone() }
    }
}

} // verus!
