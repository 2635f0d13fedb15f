use gizmo_setup_wizard::drive_management::DriveInfo;
use gizmo_setup_wizard::github::{GithubRelease, GithubReleaseAsset};
use gizmo_setup_wizard::pages::system_firmware::{
    board_revision, firmware_assets, Step, SystemFirmwarePage,
};
use gizmo_setup_wizard::pages::{Page, PageEvent, PageReport, TaskRequest, TaskResult};
use gizmo_setup_wizard::task::WorkerReport;
use gizmo_setup_wizard::threads::JoinOutcome;

fn sf_release(tag: &str, latest: bool, assets: &[&str]) -> GithubRelease {
    GithubRelease {
        name: tag.to_string(),
        tag_name: tag.to_string(),
        assets: assets
            .iter()
            .map(|asset| GithubReleaseAsset {
                name: asset.to_string(),
                browser_download_url: format!("https://example.org/{asset}"),
            })
            .collect(),
        prerelease: false,
        draft: false,
        latest,
    }
}

fn sf_done(result: TaskResult) -> PageReport {
    WorkerReport::Exited { join: JoinOutcome::Returned, message: Some(Ok(result)) }
}

fn sf_at_board_revision() -> SystemFirmwarePage {
    let mut page = SystemFirmwarePage::new();
    page.run(WorkerReport::Absent).unwrap();
    let releases = vec![sf_release(
        "v1.2.3",
        true,
        &["gss-v00.r6b-v1.2.3.uf2", "checksums.txt", "gss-v01.00-v1.2.3.uf2", "gss-v01.00-v1.2.2.uf2"],
    )];
    page.run(sf_done(TaskResult::Releases(releases))).unwrap();
    assert!(page.next());
    assert_eq!(page.current_step(), Step::ChooseBoardRevision);
    page
}

fn names(assets: &[GithubReleaseAsset]) -> Vec<&str> {
    assets.iter().map(|asset| asset.name.as_str()).collect()
}

#[test]
fn a_new_firmware_page_knows_nothing() {
    let page = SystemFirmwarePage::new();
    assert_eq!(page.current_step(), Step::ChooseVersion);
    assert!(page.available_firmwares().is_none());
    assert!(page.selected_firmware().is_none());
    assert!(page.firmware_path().is_none());
    assert!(page.session().task.is_empty());
    assert_eq!(page.get_title(), "System Firmware Install");
}

#[test]
fn the_firmware_comes_from_its_own_repository() {
    let mut page = SystemFirmwarePage::new();
    match page.run(WorkerReport::Absent).unwrap() {
        Some(TaskRequest::FetchReleases { repo_owner, repo_name }) => {
            assert_eq!(repo_owner, "gizmo-platform");
            assert_eq!(repo_name, "firmware");
        }
        other => panic!("expected a request for releases, got {:?}", other),
    }
}

#[test]
fn firmware_files_begin_with_gss_and_end_with_the_tag() {
    let release = sf_release(
        "v1.2.3",
        false,
        &[
            "gss-v00.r6b-v1.2.3.uf2",
            "gss-v01.00-v1.2.3.uf2.sha256",
            "xgss-v01.00-v1.2.3.uf2",
            "gss-v01.00-v1.2.3.uf2",
            "gss-v1.2.3.uf2",
            "gss-v01.00-v9.9.9.uf2",
        ],
    );
    assert_eq!(
        names(&firmware_assets(&release)),
        vec!["gss-v00.r6b-v1.2.3.uf2", "gss-v01.00-v1.2.3.uf2", "gss-v1.2.3.uf2"]
    );
    assert!(firmware_assets(&sf_release("v1", false, &[])).is_empty());
}

#[test]
fn the_board_revision_is_the_name_without_its_ends() {
    assert_eq!(board_revision("gss-v01.00-v1.2.3.uf2", "v1.2.3"), "v01.00");
    assert_eq!(board_revision("gss-v00.r6b-v1.2.3.uf2", "v1.2.3"), "v00.r6b");
    assert_eq!(board_revision("gss-gss-a-v1.uf2-v1.uf2", "v1"), "a");
    assert_eq!(board_revision("other.txt", "v1"), "other.txt");
    assert_eq!(board_revision("gss-v1.uf2", "v1"), "v1.uf2");
}

#[test]
fn the_firmware_files_of_the_chosen_release_are_on_offer() {
    let mut page = sf_at_board_revision();
    assert!(page.available_firmwares().is_none());
    assert!(page.run(WorkerReport::Absent).unwrap().is_none());
    assert_eq!(
        names(page.available_firmwares().as_ref().unwrap()),
        vec!["gss-v00.r6b-v1.2.3.uf2", "gss-v01.00-v1.2.3.uf2"]
    );
    assert!(page.session().task.is_empty());
    assert!(!page.is_loading());
    assert!(!page.is_next_enabled());
    assert!(!page.next());
    page.select_firmware(2);
    assert!(page.selected_firmware().is_none());
    page.handle(PageEvent::SelectFirmware(1));
    assert_eq!(page.selected_firmware().as_ref().unwrap().name, "gss-v01.00-v1.2.3.uf2");
    assert!(page.is_firmware_selected(1));
    assert!(!page.is_firmware_selected(0));
    assert!(page.next());
    assert_eq!(page.current_step(), Step::DownloadFirmware);
}

#[test]
fn the_chosen_firmware_file_is_downloaded_and_copied() {
    let mut page = sf_at_board_revision();
    page.run(WorkerReport::Absent).unwrap();
    page.select_firmware(0);
    page.next();
    match page.run(WorkerReport::Absent).unwrap() {
        Some(TaskRequest::DownloadAsset { asset, repo_owner, repo_name, release }) => {
            assert_eq!(asset.name, "gss-v00.r6b-v1.2.3.uf2");
            assert_eq!(repo_owner, "gizmo-platform");
            assert_eq!(repo_name, "firmware");
            assert_eq!(release.tag_name, "v1.2.3");
        }
        other => panic!("expected a download, got {:?}", other),
    }
    assert!(page.run(WorkerReport::Running).unwrap().is_none());
    page.run(sf_done(TaskResult::Path("/cache/gss.uf2".to_string()))).unwrap();
    assert_eq!(page.current_step(), Step::ChooseDrive);
    assert_eq!(page.firmware_path().as_deref(), Some("/cache/gss.uf2"));

    assert!(matches!(page.run(WorkerReport::Absent).unwrap(), Some(TaskRequest::ListDrives)));
    let device = DriveInfo { drive_path: "/media/me/RPI-RP2".to_string(), file_system_label: "RPI-RP2".to_string() };
    page.run(sf_done(TaskResult::Drives(vec![device]))).unwrap();
    page.select_drive(0);
    assert!(page.next());
    match page.run(WorkerReport::Absent).unwrap() {
        Some(TaskRequest::CopyFirmware { firmware_path, drive }) => {
            assert_eq!(firmware_path, "/cache/gss.uf2");
            assert_eq!(drive.drive_path, "/media/me/RPI-RP2");
        }
        other => panic!("expected a copy, got {:?}", other),
    }
    page.run(sf_done(TaskResult::Finished)).unwrap();
    assert_eq!(page.current_step(), Step::PostInstall);
    assert!(page.next());
    assert_eq!(page.current_step(), Step::ChooseDrive);
    assert!(page.session().selected_drive.is_none());
    assert!(page.session().available_drives.is_none());
    assert_eq!(page.selected_firmware().as_ref().unwrap().name, "gss-v00.r6b-v1.2.3.uf2");
}

#[test]
fn reset_puts_the_firmware_page_back_to_its_beginning() {
    let mut page = sf_at_board_revision();
    page.run(WorkerReport::Absent).unwrap();
    page.select_firmware(0);
    page.next();
    page.run(WorkerReport::Absent).unwrap();
    page.reset();
    assert_eq!(page.current_step(), Step::ChooseVersion);
    assert!(page.available_firmwares().is_none());
    assert!(page.selected_firmware().is_none());
    assert!(page.firmware_path().is_none());
    assert!(page.session().software_version.is_none());
    assert!(page.session().task.is_empty());
}
