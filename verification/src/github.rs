//! Releases of a repository, and where their assets are kept once downloaded.

use crate::error::{ErrorKind, ErrorModel, WizardError};
use crate::paths::{join_path, joined_path};
use crate::text::same_text;
use vstd::prelude::*;
use vstd::std_specs::cmp::PartialEqSpecImpl;
use vstd::string::StringExecFns;

verus! {

/// A file attached to a release.
#[derive(Debug)]
pub struct GithubReleaseAsset {
    pub name: String,
    pub browser_download_url: String,
}

/// The mathematical content of a [`GithubReleaseAsset`].
pub ghost struct AssetModel {
    pub name: Seq<char>,
    pub browser_download_url: Seq<char>,
}

impl DeepView for GithubReleaseAsset {
    type V = AssetModel;

    open spec fn deep_view(&self) -> AssetModel {
        AssetModel { name: self.name@, browser_download_url: self.browser_download_url@ }
    }
}

impl View for GithubReleaseAsset {
    type V = AssetModel;

    open spec fn view(&self) -> AssetModel {
        self.deep_view()
    }
}

impl Clone for GithubReleaseAsset {
    fn clone(&self) -> (copy: Self)
        ensures
            copy == *self,
    {
        GithubReleaseAsset {
            name: self.name.clone(),
            browser_download_url: self.browser_download_url.clone(),
        }
    }
}

impl PartialEq for GithubReleaseAsset {
    /// Two assets are equal when their names and their addresses are.
    fn eq(&self, other: &Self) -> (equal: bool) {
        self.name == other.name && self.browser_download_url == other.browser_download_url
    }
}

impl PartialEqSpecImpl for GithubReleaseAsset {
    open spec fn obeys_eq_spec() -> bool {
        true
    }

    open spec fn eq_spec(&self, other: &Self) -> bool {
        self.name@ == other.name@ && self.browser_download_url@ == other.browser_download_url@
    }
}

/// A release of a repository.
#[derive(Debug)]
pub struct GithubRelease {
    pub name: String,
    pub tag_name: String,
    pub assets: Vec<GithubReleaseAsset>,
    pub prerelease: bool,
    pub draft: bool,
    pub latest: bool,
}

/// The mathematical content of a [`GithubRelease`].
pub ghost struct ReleaseModel {
    pub name: Seq<char>,
    pub tag_name: Seq<char>,
    pub assets: Seq<AssetModel>,
    pub prerelease: bool,
    pub draft: bool,
    pub latest: bool,
}

impl DeepView for GithubRelease {
    type V = ReleaseModel;

    open spec fn deep_view(&self) -> ReleaseModel {
        ReleaseModel {
            name: self.name@,
            tag_name: self.tag_name@,
            assets: self.assets.deep_view(),
            prerelease: self.prerelease,
            draft: self.draft,
            latest: self.latest,
        }
    }
}

impl View for GithubRelease {
    type V = ReleaseModel;

    open spec fn view(&self) -> ReleaseModel {
        self.deep_view()
    }
}

impl Clone for GithubRelease {
    fn clone(&self) -> (copy: Self)
        ensures
            copy@ == self@,
    {
        let assets = self.assets.clone();
        GithubRelease {
            name: self.name.clone(),
            tag_name: self.tag_name.clone(),
            assets,
            prerelease: self.prerelease,
            draft: self.draft,
            latest: self.latest,
        }
    }
}

impl PartialEq for GithubRelease {
    /// Two releases are equal when their names are.
    fn eq(&self, other: &Self) -> (equal: bool) {
        self.name == other.name
    }
}

impl PartialEqSpecImpl for GithubRelease {
    open spec fn obeys_eq_spec() -> bool {
        true
    }

    open spec fn eq_spec(&self, other: &Self) -> bool {
        self.name@ == other.name@
    }
}

/// What follows a release's name when it is shown: its state, a draft before a
/// prerelease before the latest release, or nothing.
pub open spec fn display_suffix(release: ReleaseModel) -> Seq<char> {
    if release.draft {
        " (draft)"@
    } else if release.prerelease {
        " (prerelease)"@
    } else if release.latest {
        " (latest)"@
    } else {
        Seq::empty()
    }
}

impl GithubRelease {
    /// The release's name with its state behind it.
    pub fn display_name(&self) -> (text: String)
        ensures
            text@ == self@.name + display_suffix(self@),
    {
        let suffix = if self.draft {
            " (draft)"
        } else if self.prerelease {
            " (prerelease)"
        } else if self.latest {
            " (latest)"
        } else {
            ""
        };
        proof {
            reveal_strlit("");
        }
        self.name.clone().concat(suffix)
    }
}

/// Whether a release is neither a draft nor a prerelease.
pub open spec fn is_stable(release: ReleaseModel) -> bool {
    !release.prerelease && !release.draft
}

/// Whether some release of the list is stable.
pub open spec fn has_stable(releases: Seq<ReleaseModel>) -> bool {
    exists|i: int| 0 <= i < releases.len() && is_stable(#[trigger] releases[i])
}

/// Whether `position` is that of the first stable release of the list.
pub open spec fn is_first_stable(releases: Seq<ReleaseModel>, position: int) -> bool {
    &&& 0 <= position < releases.len()
    &&& is_stable(releases[position])
    &&& forall|j: int| 0 <= j < position ==> !is_stable(#[trigger] releases[j])
}

/// The position of the first stable release of a list that has one.
pub open spec fn first_stable(releases: Seq<ReleaseModel>) -> int {
    choose|position: int| is_first_stable(releases, position)
}

/// The list with the release at `position` marked as the latest, and no other.
pub open spec fn with_latest_at(releases: Seq<ReleaseModel>, position: int) -> Seq<ReleaseModel> {
    Seq::new(
        releases.len(),
        |i: int| ReleaseModel { latest: i == position, ..releases[i] },
    )
}

/// A list has at most one first stable release.
pub proof fn lemma_first_stable_is_unique(releases: Seq<ReleaseModel>, a: int, b: int)
    requires
        is_first_stable(releases, a),
        is_first_stable(releases, b),
    ensures
        a == b,
{
    if a < b {
        assert(!is_stable(releases[a]));
    } else if b < a {
        assert(!is_stable(releases[b]));
    }
}

/// The address that lists the releases of a repository.
pub fn releases_url(repo_owner: &str, repo_name: &str) -> (url: String)
    ensures
        url@ == "https://api.github.com/repos/"@ + repo_owner@ + "/"@ + repo_name@ + "/releases"@,
{
    String::from_str("https://api.github.com/repos/").concat(repo_owner).concat("/").concat(
        repo_name,
    ).concat("/releases")
}

/// Marks the latest release in a list as it came from the repository: the
/// first one that is neither a draft nor a prerelease. No other release is
/// left marked. A list without such a release is an error.
pub fn get_releases(releases: Vec<GithubRelease>) -> (result: Result<
    Vec<GithubRelease>,
    WizardError,
>)
    ensures
        result is Ok <==> has_stable(releases.deep_view()),
        result matches Ok(marked) ==> marked.deep_view() == with_latest_at(
            releases.deep_view(),
            first_stable(releases.deep_view()),
        ),
        result matches Err(e) ==> e@ == (ErrorModel {
            kind: ErrorKind::NoStableRelease,
            detail: Seq::empty(),
        }),
{
    let ghost before = releases.deep_view();
    let mut marked = releases;
    let ghost mut found: int = -1;
    let mut seen = false;
    let mut i: usize = 0;
    while i < marked.len()
        invariant
            i <= marked.len(),
            marked.len() == before.len(),
            seen <==> found >= 0,
            seen ==> is_first_stable(before, found) && found < i,
            !seen ==> forall|j: int| 0 <= j < i ==> !is_stable(#[trigger] before[j]),
            forall|j: int|
                0 <= j < i ==> #[trigger] marked[j]@ == (ReleaseModel {
                    latest: j == found,
                    ..before[j]
                }),
            forall|j: int| i <= j < marked.len() ==> #[trigger] marked[j]@ == before[j],
        decreases marked.len() - i,
    {
        let ghost earlier = marked@;
        let first = !seen && !marked[i].prerelease && !marked[i].draft;
        marked[i].latest = first;
        assert(earlier[i as int]@ == before[i as int]);
        if first {
            seen = true;
            proof {
                found = i as int;
            }
        }
        i += 1;
    }
    if seen {
        proof {
            lemma_first_stable_is_unique(before, found, first_stable(before));
            assert forall|j: int| 0 <= j < marked.len() implies marked.deep_view()[j]
                == with_latest_at(before, found)[j] by {
                assert(marked[j]@ == (ReleaseModel { latest: j == found, ..before[j] }));
            }
        }
        Ok(marked)
    } else {
        Err(WizardError::new(ErrorKind::NoStableRelease))
    }
}

/// At or before a stable release there is a first stable release.
proof fn lemma_first_stable_exists(releases: Seq<ReleaseModel>, position: int)
    requires
        0 <= position < releases.len(),
        is_stable(releases[position]),
    ensures
        is_first_stable(releases, first_stable(releases)),
    decreases position,
{
    if forall|j: int| 0 <= j < position ==> !is_stable(#[trigger] releases[j]) {
        assert(is_first_stable(releases, position));
    } else {
        let j = choose|j: int| 0 <= j < position && is_stable(#[trigger] releases[j]);
        lemma_first_stable_exists(releases, j);
    }
}

/// Marking the latest release marks exactly one: in a list with a stable
/// release, the first stable release is marked and no other release is.
pub proof fn lemma_exactly_one_latest(releases: Seq<ReleaseModel>)
    requires
        has_stable(releases),
    ensures
        is_first_stable(releases, first_stable(releases)),
        with_latest_at(releases, first_stable(releases)).len() == releases.len(),
        forall|i: int|
            0 <= i < releases.len() ==> (#[trigger] with_latest_at(
                releases,
                first_stable(releases),
            )[i]).latest == (i == first_stable(releases)),
{
    let i = choose|i: int| 0 <= i < releases.len() && is_stable(#[trigger] releases[i]);
    lemma_first_stable_exists(releases, i);
}

/// Whether `position` is that of the first asset of the list with the name.
pub open spec fn is_first_named(assets: Seq<AssetModel>, name: Seq<char>, position: int) -> bool {
    &&& 0 <= position < assets.len()
    &&& assets[position].name == name
    &&& forall|j: int| 0 <= j < position ==> (#[trigger] assets[j]).name != name
}

/// Whether some asset of the list has the name.
pub open spec fn has_named(assets: Seq<AssetModel>, name: Seq<char>) -> bool {
    exists|i: int| 0 <= i < assets.len() && (#[trigger] assets[i]).name == name
}

/// The position of the first asset with the name, in a list that has one.
pub open spec fn first_named(assets: Seq<AssetModel>, name: Seq<char>) -> int {
    choose|position: int| is_first_named(assets, name, position)
}

impl GithubRelease {
    /// The first asset of the release with the given name, if there is one.
    pub fn find_asset(&self, name: &str) -> (found: Option<&GithubReleaseAsset>)
        ensures
            found is Some <==> has_named(self@.assets, name@),
            found matches Some(asset) ==> {
                &&& is_first_named(self@.assets, name@, first_named(self@.assets, name@))
                &&& asset@ == self@.assets[first_named(self@.assets, name@)]
            },
    {
        let mut i: usize = 0;
        while i < self.assets.len()
            invariant
                i <= self.assets.len(),
                forall|j: int| 0 <= j < i ==> (#[trigger] self@.assets[j]).name != name@,
            decreases self.assets.len() - i,
        {
            if same_text(self.assets[i].name.as_str(), name) {
                proof {
                    let assets = self@.assets;
                    assert(is_first_named(assets, name@, i as int));
                    let chosen = first_named(assets, name@);
                    if chosen < i {
                        assert(assets[chosen].name != name@);
                    } else if i < chosen {
                        assert(assets[i as int].name != name@);
                    }
                }
                return Some(&self.assets[i]);
            }
            i += 1;
        }
        None
    }
}

/// Where a downloaded asset is kept: below the cache directory, by owner,
/// repository, release name and asset name.
pub open spec fn asset_destination(
    cache_dir: Seq<char>,
    repo_owner: Seq<char>,
    repo_name: Seq<char>,
    release_name: Seq<char>,
    asset_name: Seq<char>,
) -> Seq<char> {
    joined_path(
        joined_path(joined_path(joined_path(cache_dir, repo_owner), repo_name), release_name),
        asset_name,
    )
}

/// What has to be done to have an asset on disk.
#[derive(Debug)]
pub struct Download {
    /// The local path of the asset.
    pub destination: String,
    /// The address to fetch it from, or nothing when it is already there.
    pub fetch_from: Option<String>,
}

/// The mathematical content of a [`Download`].
pub ghost struct DownloadModel {
    pub destination: Seq<char>,
    pub fetch_from: Option<Seq<char>>,
}

impl View for Download {
    type V = DownloadModel;

    open spec fn view(&self) -> DownloadModel {
        DownloadModel {
            destination: self.destination@,
            fetch_from: match self.fetch_from {
                Some(url) => Some(url@),
                None => None,
            },
        }
    }
}

/// The download of an asset of a release: its destination depends on the
/// owner, the repository, the release's name and the asset's name only, and
/// it is fetched from the asset's address unless it is cached.
pub open spec fn download_plan(
    asset: AssetModel,
    repo_owner: Seq<char>,
    repo_name: Seq<char>,
    release: ReleaseModel,
    cache_dir: Seq<char>,
    cached: bool,
) -> DownloadModel {
    DownloadModel {
        destination: asset_destination(cache_dir, repo_owner, repo_name, release.name, asset.name),
        fetch_from: if cached {
            None
        } else {
            Some(asset.browser_download_url)
        },
    }
}

/// The local path at which an asset of a release is kept.
pub fn versioned_asset_path(
    asset: &GithubReleaseAsset,
    repo_owner: &str,
    repo_name: &str,
    release: &GithubRelease,
    cache_dir: &str,
) -> (path: String)
    ensures
        path@ == asset_destination(
            cache_dir@,
            repo_owner@,
            repo_name@,
            release@.name,
            asset@.name,
        ),
{
    let owner_dir = join_path(cache_dir, repo_owner);
    let repo_dir = join_path(owner_dir.as_str(), repo_name);
    let release_dir = join_path(repo_dir.as_str(), release.name.as_str());
    join_path(release_dir.as_str(), asset.name.as_str())
}

/// Plans the download of an asset of a release into the cache directory.
/// `cached` says whether a file already exists at the asset's local path; if
/// so, nothing is fetched.
pub fn download_versioned_asset(
    asset: &GithubReleaseAsset,
    repo_owner: &str,
    repo_name: &str,
    release: &GithubRelease,
    cache_dir: &str,
    cached: bool,
) -> (plan: Download)
    ensures
        plan@ == download_plan(asset@, repo_owner@, repo_name@, release@, cache_dir@, cached),
{
    let destination = versioned_asset_path(asset, repo_owner, repo_name, release, cache_dir);
    let fetch_from = if cached {
        None
    } else {
        Some(asset.browser_download_url.clone())
    };
    Download { destination, fetch_from }
}

/// Downloading is idempotent: the same asset of the same release has the same
/// local path whether or not it was downloaded before, and once it is there a
/// second download fetches nothing.
pub proof fn lemma_download_is_idempotent(
    asset: AssetModel,
    repo_owner: Seq<char>,
    repo_name: Seq<char>,
    release: ReleaseModel,
    cache_dir: Seq<char>,
)
    ensures
        download_plan(asset, repo_owner, repo_name, release, cache_dir, true).destination
            == download_plan(asset, repo_owner, repo_name, release, cache_dir, false).destination,
        download_plan(asset, repo_owner, repo_name, release, cache_dir, true).fetch_from is None,
{
}

/// Judges the answer to the request for the releases of a repository: an
/// answer whose status is not a success is an error that quotes the status.
pub fn releases_status(success: bool, status: &str) -> (result: Result<(), WizardError>)
    ensures
        result is Ok <==> success,
        result matches Err(e) ==> e@ == (ErrorModel {
            kind: ErrorKind::FetchReleasesFailed,
            detail: status@,
        }),
{
    if success {
        Ok(())
    } else {
        Err(WizardError::with_detail(ErrorKind::FetchReleasesFailed, status))
    }
}

} // verus!
