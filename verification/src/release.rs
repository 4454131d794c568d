//! Selection of the right asset out of a release listing: the release-listing
//! endpoint answers with a set of named assets, and the one whose name equals
//! the resolved asset name is the one to download.

use vstd::prelude::*;

use crate::archive::{archive_kind_of, spec_archive_kind, ArchiveKind};
use crate::platform::{get_target_asset_name, spec_asset_for};
use crate::text::str_eq;
use crate::InstallError;

verus! {

/// One downloadable file attached to a release: its published name and the
/// URL its bytes are served from.
#[derive(Clone, Debug)]
pub struct Asset {
    pub name: String,
    pub url: String,
}

/// The download URL of the first asset named `name`, if any asset is.
pub open spec fn spec_find_asset(assets: Seq<Asset>, name: Seq<char>) -> Option<Seq<char>>
    decreases assets.len(),
{
    if assets.len() == 0 {
        None
    } else if assets[0].name@ == name {
        Some(assets[0].url@)
    } else {
        spec_find_asset(assets.drop_first(), name)
    }
}

/// A prefix of assets with other names does not change which asset is found.
proof fn lemma_find_asset_ignores_prefix(assets: Seq<Asset>, name: Seq<char>, i: int)
    requires
        0 <= i <= assets.len(),
        forall|k: int| 0 <= k < i ==> assets[k].name@ != name,
    ensures
        spec_find_asset(assets, name) == spec_find_asset(assets.skip(i), name),
    decreases i,
{
    if i == 0 {
        assert(assets.skip(0) =~= assets);
    } else {
        lemma_find_asset_ignores_prefix(assets.drop_first(), name, i - 1);
        assert(assets.drop_first().skip(i - 1) =~= assets.skip(i));
    }
}

/// Walks a release listing in order and returns the download URL of the first
/// asset named `name`, failing when the listing holds no such asset.
pub fn find_asset_url(assets: &Vec<Asset>, name: &str) -> (r: Result<String, InstallError>)
    ensures
        match r {
            Ok(url) => spec_find_asset(assets@, name@) == Some(url@),
            Err(e) => spec_find_asset(assets@, name@) is None && e == InstallError::AssetNotFound,
        },
{
    let n = assets.len();
    let mut i: usize = 0;
    while i < n
        invariant
            n == assets.len(),
            i <= n,
            forall|k: int| 0 <= k < i ==> assets@[k].name@ != name@,
        decreases n - i,
    {
        let a = &assets[i];
        if str_eq(a.name.as_str(), name) {
            let url = a.url.clone();
            proof {
                lemma_find_asset_ignores_prefix(assets@, name@, i as int);
                assert(assets@.skip(i as int)[0] == assets@[i as int]);
            }
            return Ok(url);
        }
        i = i + 1;
    }
    proof {
        lemma_find_asset_ignores_prefix(assets@, name@, n as int);
    }
    Err(InstallError::AssetNotFound)
}

/// Everything a download needs that can be decided before any bytes move: the
/// URL to fetch and the archive format the fetched bytes will come in.
#[derive(Clone, Debug, PartialEq)]
pub struct DownloadPlan {
    pub url: String,
    pub kind: ArchiveKind,
}

/// The decisions of a whole download, in the order they are made: resolve the
/// target to an asset name, pick that asset's URL out of the release listing,
/// and read the archive format off the asset name. The first failure is the
/// one reported.
pub open spec fn spec_plan_download(assets: Seq<Asset>, target: Seq<char>) -> Result<
    (Seq<char>, ArchiveKind),
    InstallError,
> {
    match spec_asset_for(target) {
        None => Err(InstallError::UnsupportedPlatform),
        Some(name) => match spec_find_asset(assets, name) {
            None => Err(InstallError::AssetNotFound),
            Some(url) => match spec_archive_kind(name) {
                Ok(kind) => Ok((url, kind)),
                Err(e) => Err(e),
            },
        },
    }
}

/// Plans a download for `target` from a release listing: which URL to fetch
/// and how to decode what it serves. Fails exactly when the target is
/// unsupported, the listing lacks the resolved asset, or the asset's name
/// names no known archive format.
pub fn plan_download(assets: &Vec<Asset>, target: &str) -> (r: Result<DownloadPlan, InstallError>)
    ensures
        match r {
            Ok(plan) => spec_plan_download(assets@, target@) == Ok::<
                (Seq<char>, ArchiveKind),
                InstallError,
            >((plan.url@, plan.kind)),
            Err(e) => spec_plan_download(assets@, target@) == Err::<
                (Seq<char>, ArchiveKind),
                InstallError,
            >(e),
        },
{
    let name = match get_target_asset_name(target) {
        Ok(name) => name,
        Err(e) => {
            return Err(e);
        },
    };
    let url = match find_asset_url(assets, name) {
        Ok(url) => url,
        Err(e) => {
            return Err(e);
        },
    };
    match archive_kind_of(name) {
        Ok(kind) => Ok(DownloadPlan { url, kind }),
        Err(e) => Err(e),
    }
}

} // verus!
