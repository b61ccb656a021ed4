//! Release resolver: which request asks for the latest release of a
//! repository, and which asset of the reply is installed.

use crate::error::{fails_with, InstallError, InstallErrorView};
use crate::status::{check_outcome, refusal_of, RequestOutcome};
use vstd::prelude::*;
use vstd::string::StringExecFns;

verus! {

/// One downloadable file of a release.
#[derive(Debug, Clone, PartialEq, Eq)]
pub struct AssetDescriptor {
    /// Display name; also the name of the local file the asset is stored in.
    pub name: String,
    /// Where the asset's bytes are fetched from.
    pub download_url: String,
}

/// The mathematical value of an [`AssetDescriptor`].
pub struct AssetView {
    pub name: Seq<char>,
    pub download_url: Seq<char>,
}

impl View for AssetDescriptor {
    type V = AssetView;

    open spec fn view(&self) -> AssetView {
        AssetView { name: self.name@, download_url: self.download_url@ }
    }
}

/// A published release: its assets in the order in which the host lists them.
#[derive(Debug, Clone, PartialEq, Eq)]
pub struct ReleaseDescriptor {
    pub assets: Vec<AssetDescriptor>,
}

impl View for ReleaseDescriptor {
    type V = Seq<AssetView>;

    open spec fn view(&self) -> Seq<AssetView> {
        self.assets@.map_values(|asset: AssetDescriptor| asset@)
    }
}

/// The one request a resolver sends.
#[derive(Debug, Clone, PartialEq, Eq)]
pub struct ReleaseQuery {
    /// Address of the host's "latest release" document for the repository.
    pub url: String,
    /// Value of the identifying header that the host requires.
    pub user_agent: String,
}

/// Address of the "latest release" document of `repository`, which is given
/// as `owner/name`.
pub open spec fn release_url(repository: Seq<char>) -> Seq<char> {
    "https://api.github.com/repos/"@ + repository + "/releases/latest"@
}

/// The request that asks for the latest release of `repository`.
pub fn release_query(repository: &str) -> (query: ReleaseQuery)
    ensures
        query.url@ == release_url(repository@),
        query.user_agent@ == "reqwest"@,
{
    let mut url = String::from_str("https://api.github.com/repos/");
    url.append(repository);
    url.append("/releases/latest");
    ReleaseQuery { url, user_agent: String::from_str("reqwest") }
}

/// The request to send at the start of a run. An install is due only where
/// the launcher is missing: where it is there, nothing is asked for.
pub fn install_query(launcher_exists: bool, repository: &str) -> (query: Option<ReleaseQuery>)
    ensures
        launcher_exists ==> query is None,
        !launcher_exists ==> (query matches Some(q) && q.url@ == release_url(repository@)
            && q.user_agent@ == "reqwest"@),
{
    if launcher_exists {
        None
    } else {
        Some(release_query(repository))
    }
}

/// Picks the asset to install from what came of a release query: the first
/// asset in the order of the reply, whatever its name. No attempt is made to
/// find a best match for a platform.
///
/// `release` is the body of the reply, `None` where there is none or where it
/// could not be read as a release. A failed transport and a status that is no
/// success win over everything the body holds.
pub fn resolve(outcome: RequestOutcome, release: Option<ReleaseDescriptor>) -> (resolved: Result<
    AssetDescriptor,
    InstallError,
>)
    ensures
        match refusal_of(outcome@) {
            Some(refusal) => fails_with(resolved, refusal),
            None => match release {
                None => fails_with(resolved, InstallErrorView::MalformedResponse),
                Some(release) => if release@.len() == 0 {
                    fails_with(resolved, InstallErrorView::NoAssetsAvailable)
                } else {
                    resolved matches Ok(asset) && asset@ == release@[0]
                },
            },
        },
{
    match check_outcome(outcome) {
        Err(refusal) => {
            return Err(refusal);
        },
        Ok(()) => {},
    }
    match release {
        None => Err(InstallError::MalformedResponse),
        Some(release) => {
            let mut assets = release.assets;
            if assets.len() == 0 {
                Err(InstallError::NoAssetsAvailable)
            } else {
                Ok(assets.remove(0))
            }
        },
    }
}

} // verus!
