use gizmo_setup_wizard::error::ErrorKind;
use gizmo_setup_wizard::github::{
    download_versioned_asset, get_releases, releases_status, releases_url, versioned_asset_path,
    GithubRelease, GithubReleaseAsset,
};

fn asset(name: &str) -> GithubReleaseAsset {
    GithubReleaseAsset {
        name: name.to_string(),
        browser_download_url: format!("https://example.org/download/{name}"),
    }
}

fn release(name: &str, prerelease: bool, draft: bool) -> GithubRelease {
    GithubRelease {
        name: name.to_string(),
        tag_name: name.to_string(),
        assets: vec![asset("ds-ramdisk.zip")],
        prerelease,
        draft,
        latest: false,
    }
}

fn latest_flags(releases: &[GithubRelease]) -> Vec<bool> {
    releases.iter().map(|release| release.latest).collect()
}

#[test]
fn display_name_of_a_plain_release_is_its_name() {
    assert_eq!(release("v1", false, false).display_name(), "v1");
}

#[test]
fn display_name_marks_the_latest_release() {
    let mut latest = release("v2", false, false);
    latest.latest = true;
    assert_eq!(latest.display_name(), "v2 (latest)");
}

#[test]
fn display_name_marks_a_prerelease() {
    assert_eq!(release("v3-rc1", true, false).display_name(), "v3-rc1 (prerelease)");
}

#[test]
fn display_name_marks_a_draft_before_anything_else() {
    let mut draft = release("v3", true, true);
    draft.latest = true;
    assert_eq!(draft.display_name(), "v3 (draft)");
    let mut prerelease = release("v3", true, false);
    prerelease.latest = true;
    assert_eq!(prerelease.display_name(), "v3 (prerelease)");
}

#[test]
fn releases_are_equal_by_name() {
    let mut other = release("v1", true, true);
    other.tag_name = "other-tag".to_string();
    other.assets.clear();
    assert_eq!(release("v1", false, false), other);
    assert_ne!(release("v1", false, false), release("v2", false, false));
}

#[test]
fn assets_are_equal_by_name_and_address() {
    assert_eq!(asset("a.zip"), asset("a.zip"));
    assert_ne!(asset("a.zip"), asset("b.zip"));
    let mut moved = asset("a.zip");
    moved.browser_download_url = "https://example.org/elsewhere".to_string();
    assert_ne!(asset("a.zip"), moved);
}

#[test]
fn clones_keep_every_field() {
    let mut source = release("v1", true, false);
    source.tag_name = "tag-1".to_string();
    source.latest = true;
    source.assets.push(asset("second.bin"));
    let copy = source.clone();
    assert_eq!(copy.name, "v1");
    assert_eq!(copy.tag_name, "tag-1");
    assert_eq!(copy.assets, source.assets);
    assert!(copy.prerelease && !copy.draft && copy.latest);
}

#[test]
fn the_first_stable_release_is_the_latest() {
    let fetched = vec![release("v3-draft", false, true), release("v2", false, false), release("v1", false, false)];
    let marked = get_releases(fetched).unwrap();
    assert_eq!(latest_flags(&marked), vec![false, true, false]);
    assert_eq!(marked[1].name, "v2");
    assert_eq!(marked[1].display_name(), "v2 (latest)");
    assert_eq!(marked[0].display_name(), "v3-draft (draft)");
    assert_eq!(marked[2].display_name(), "v1");
}

#[test]
fn prereleases_are_passed_over() {
    let fetched = vec![release("v4-rc", true, false), release("v3", false, true), release("v2", false, false)];
    let marked = get_releases(fetched).unwrap();
    assert_eq!(latest_flags(&marked), vec![false, false, true]);
}

#[test]
fn marking_keeps_everything_but_the_mark() {
    let mut first = release("v2", false, false);
    first.tag_name = "tag-2".to_string();
    first.assets.push(asset("extra.bin"));
    let marked = get_releases(vec![first, release("v1", true, false)]).unwrap();
    assert_eq!(marked.len(), 2);
    assert_eq!(marked[0].name, "v2");
    assert_eq!(marked[0].tag_name, "tag-2");
    assert_eq!(marked[0].assets, vec![asset("ds-ramdisk.zip"), asset("extra.bin")]);
    assert!(marked[0].latest);
    assert_eq!(marked[1].name, "v1");
    assert!(marked[1].prerelease && !marked[1].latest);
}

#[test]
fn exactly_one_release_is_marked_whatever_was_marked_before() {
    let mut stale = release("v1", false, false);
    stale.latest = true;
    let mut draft = release("v3", false, true);
    draft.latest = true;
    let marked = get_releases(vec![draft, release("v2", false, false), stale]).unwrap();
    assert_eq!(latest_flags(&marked), vec![false, true, false]);
}

#[test]
fn a_list_without_a_stable_release_is_an_error() {
    let error = get_releases(vec![release("v2-rc", true, false), release("v1", false, true)]).unwrap_err();
    assert_eq!(error.kind, ErrorKind::NoStableRelease);
    assert_eq!(error.message(), "No stable releases found");
}

#[test]
fn an_empty_list_is_an_error() {
    assert_eq!(get_releases(Vec::new()).unwrap_err().kind, ErrorKind::NoStableRelease);
}

#[test]
fn the_releases_of_a_repository_have_one_address() {
    assert_eq!(
        releases_url("gizmo-platform", "gizmo"),
        "https://api.github.com/repos/gizmo-platform/gizmo/releases"
    );
    assert_eq!(releases_url("", ""), "https://api.github.com/repos///releases");
}

#[test]
fn an_unsuccessful_answer_quotes_its_status() {
    assert!(releases_status(true, "200 OK").is_ok());
    let error = releases_status(false, "403 Forbidden").unwrap_err();
    assert_eq!(error.kind, ErrorKind::FetchReleasesFailed);
    assert_eq!(error.message(), "Failed to fetch releases: 403 Forbidden");
}

#[test]
fn find_asset_takes_the_first_with_the_name() {
    let mut found = release("v1", false, false);
    found.assets = vec![asset("a.bin"), asset("b.bin"), asset("b.bin")];
    found.assets[2].browser_download_url = "https://example.org/second".to_string();
    let asset_b = found.find_asset("b.bin").unwrap();
    assert_eq!(asset_b.browser_download_url, "https://example.org/download/b.bin");
    assert!(found.find_asset("c.bin").is_none());
    assert!(found.find_asset("").is_none());
}

#[test]
fn an_asset_is_kept_by_owner_repository_release_and_name() {
    let path = versioned_asset_path(
        &asset("ds-ramdisk.zip"),
        "gizmo-platform",
        "gizmo",
        &release("v1.2.3", false, false),
        "/tmp/cache/github_downloads",
    );
    assert_eq!(path, "/tmp/cache/github_downloads/gizmo-platform/gizmo/v1.2.3/ds-ramdisk.zip");
}

#[test]
fn the_local_path_goes_by_the_release_name_not_the_tag() {
    let mut named = release("Spring release", false, false);
    named.tag_name = "v9".to_string();
    let path = versioned_asset_path(&asset("a.uf2"), "o", "r", &named, "cache");
    assert_eq!(path, "cache/o/r/Spring release/a.uf2");
}

#[test]
fn a_first_download_fetches_from_the_asset_address() {
    let plan = download_versioned_asset(
        &asset("ds-ramdisk.zip"),
        "gizmo-platform",
        "gizmo",
        &release("v1", false, false),
        "/cache",
        false,
    );
    assert_eq!(plan.destination, "/cache/gizmo-platform/gizmo/v1/ds-ramdisk.zip");
    assert_eq!(plan.fetch_from.as_deref(), Some("https://example.org/download/ds-ramdisk.zip"));
}

#[test]
fn a_second_download_has_the_same_path_and_fetches_nothing() {
    let first = download_versioned_asset(&asset("a.zip"), "o", "r", &release("v1", false, false), "/cache", false);
    let second = download_versioned_asset(&asset("a.zip"), "o", "r", &release("v1", false, false), "/cache", true);
    assert_eq!(first.destination, second.destination);
    assert_eq!(second.fetch_from, None);
}
