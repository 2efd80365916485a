//! Published releases and the choice of the asset to install.
use crate::error::{outcome_view, ErrorView, ResolveError};
use crate::platform::{arch_supported, asset_name_spec, get_release_asset_name, Architecture, Os};
use vstd::prelude::*;

verus! {

/// A downloadable file attached to a release.
#[derive(Clone, Debug)]
pub struct ReleaseAsset {
    pub name: String,
    pub download_url: String,
}

/// The latest qualifying release: its version tag and its assets, in order.
#[derive(Clone, Debug)]
pub struct ReleaseInfo {
    pub version: String,
    pub assets: Vec<ReleaseAsset>,
}

/// Mathematical model of a [`ReleaseAsset`].
pub struct AssetView {
    pub name: Seq<char>,
    pub download_url: Seq<char>,
}

/// Mathematical model of a [`ReleaseInfo`].
pub struct ReleaseView {
    pub version: Seq<char>,
    pub assets: Seq<AssetView>,
}

impl View for ReleaseAsset {
    type V = AssetView;

    open spec fn view(&self) -> AssetView {
        AssetView { name: self.name@, download_url: self.download_url@ }
    }
}

impl View for ReleaseInfo {
    type V = ReleaseView;

    open spec fn view(&self) -> ReleaseView {
        ReleaseView { version: self.version@, assets: self.assets@.map_values(|a: ReleaseAsset| a@) }
    }
}

/// `i` is the first position of an asset called `name`.
pub open spec fn is_first_match(assets: Seq<AssetView>, name: Seq<char>, i: int) -> bool {
    &&& 0 <= i < assets.len()
    &&& assets[i].name == name
    &&& forall|j: int| 0 <= j < i ==> assets[j].name != name
}

/// Position of the first asset called `name`, if any.
pub open spec fn asset_position(assets: Seq<AssetView>, name: Seq<char>) -> Option<int> {
    if exists|i: int| is_first_match(assets, name, i) {
        Some(choose|i: int| is_first_match(assets, name, i))
    } else {
        None
    }
}

/// Download URL of the asset to install on (`os`, `arch`), or why there is none.
pub open spec fn install_source_spec(
    release: ReleaseView,
    os: Os,
    arch: Architecture,
) -> Result<Seq<char>, ErrorView> {
    if !arch_supported(arch) {
        Err(ErrorView::UnsupportedArchitecture(arch))
    } else {
        match asset_position(release.assets, asset_name_spec(os, arch)) {
            Some(i) => Ok(release.assets[i].download_url),
            None => Err(ErrorView::AssetNotFound(asset_name_spec(os, arch))),
        }
    }
}

/// Position of the first asset of `release` whose name equals `name` exactly.
pub fn find_asset(release: &ReleaseInfo, name: &String) -> (r: Option<usize>)
    ensures
        r matches Some(i) ==> asset_position(release@.assets, name@) == Some(i as int),
        r is None ==> asset_position(release@.assets, name@) is None,
        r is None <==> forall|j: int|
            0 <= j < release@.assets.len() ==> (#[trigger] release@.assets[j]).name != name@,
{
    let ghost assets = release@.assets;
    let mut i: usize = 0;
    while i < release.assets.len()
        invariant
            i <= release.assets.len(),
            assets == release@.assets,
            forall|j: int| 0 <= j < i ==> (#[trigger] assets[j]).name != name@,
        decreases release.assets.len() - i,
    {
        if release.assets[i].name == *name {
            assert(is_first_match(assets, name@, i as int));
            let ghost k = choose|k: int| is_first_match(assets, name@, k);
            assert(k == i) by {
                if k < i {
                    assert(assets[k].name != name@);
                }
                if k > i {
                    assert(assets[i as int].name != name@);
                }
            }
            return Some(i);
        }
        i += 1;
    }
    assert forall|k: int| !is_first_match(assets, name@, k) by {
        if is_first_match(assets, name@, k) {
            assert(assets[k].name != name@);
        }
    }
    None
}

/// Download URL of the asset that `release` publishes for (`os`, `arch`).
/// Fails with `UnsupportedArchitecture` for an architecture without builds, and
/// with `AssetNotFound` when no asset carries the expected name.
pub fn install_source(release: &ReleaseInfo, os: Os, arch: Architecture) -> (r: Result<String, ResolveError>)
    ensures
        outcome_view(r) == install_source_spec(release@, os, arch),
{
    let name = match get_release_asset_name(os, arch) {
        Ok(n) => n,
        Err(e) => {
            return Err(e);
        },
    };
    match find_asset(release, &name) {
        Some(i) => Ok(release.assets[i].download_url.clone()),
        None => Err(ResolveError::AssetNotFound(name)),
    }
}

} // verus!
