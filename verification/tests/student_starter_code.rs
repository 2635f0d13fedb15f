use gizmo_setup_wizard::drive_management::DriveInfo;
use gizmo_setup_wizard::error::ErrorKind;
use gizmo_setup_wizard::github::{GithubRelease, GithubReleaseAsset};
use gizmo_setup_wizard::pages::student_starter_code::{Step, StudentStarterCodePage};
use gizmo_setup_wizard::pages::{Page, PageEvent, PageReport, TaskRequest, TaskResult};
use gizmo_setup_wizard::task::WorkerReport;
use gizmo_setup_wizard::threads::JoinOutcome;

fn ss_release(name: &str, tag: &str, latest: bool, assets: &[&str]) -> GithubRelease {
    GithubRelease {
        name: name.to_string(),
        tag_name: tag.to_string(),
        assets: assets
            .iter()
            .map(|asset| GithubReleaseAsset {
                name: asset.to_string(),
                browser_download_url: format!("https://example.org/{asset}"),
            })
            .collect(),
        prerelease: false,
        draft: false,
        latest,
    }
}

fn ss_done(result: TaskResult) -> PageReport {
    WorkerReport::Exited { join: JoinOutcome::Returned, message: Some(Ok(result)) }
}

fn ss_device(path: &str) -> DriveInfo {
    DriveInfo { drive_path: path.to_string(), file_system_label: "RPI-RP2".to_string() }
}

fn ss_at_choose_version() -> StudentStarterCodePage {
    let mut page = StudentStarterCodePage::new();
    page.run(WorkerReport::Absent).unwrap();
    let releases = vec![
        ss_release("Release 2", "v2.0", true, &["readme.md", "best-default-program-v2.0.uf2"]),
        ss_release("Release 1", "v1.0", false, &["best-default-program-v0.9.uf2"]),
    ];
    page.run(ss_done(TaskResult::Releases(releases))).unwrap();
    page
}

fn ss_at_choose_drive() -> StudentStarterCodePage {
    let mut page = ss_at_choose_version();
    assert!(page.next());
    page.run(WorkerReport::Absent).unwrap();
    page.run(ss_done(TaskResult::Path("/cache/program.uf2".to_string()))).unwrap();
    assert_eq!(page.current_step(), Step::ChooseDrive);
    page
}

#[test]
fn a_new_starter_code_page_knows_nothing() {
    let page = StudentStarterCodePage::new();
    assert_eq!(page.current_step(), Step::ChooseVersion);
    assert!(page.session().available_releases.is_none());
    assert!(page.session().task.is_empty());
    assert!(page.firmware_path().is_none());
    assert!(page.is_loading());
    assert!(!page.is_next_enabled());
    assert_eq!(page.get_title(), "BEST Default Program Install");
}

#[test]
fn the_starter_code_comes_from_its_own_repository() {
    let mut page = StudentStarterCodePage::new();
    match page.run(WorkerReport::Absent).unwrap() {
        Some(TaskRequest::FetchReleases { repo_owner, repo_name }) => {
            assert_eq!(repo_owner, "gizmo-platform");
            assert_eq!(repo_name, "CircuitPython_Gizmo");
        }
        other => panic!("expected a request for releases, got {:?}", other),
    }
    assert!(page.run(WorkerReport::Running).unwrap().is_none());
}

#[test]
fn the_program_file_is_named_after_the_tag() {
    let mut page = ss_at_choose_version();
    assert!(page.next());
    assert_eq!(page.current_step(), Step::DownloadFirmware);
    match page.run(WorkerReport::Absent).unwrap() {
        Some(TaskRequest::DownloadAsset { asset, repo_owner, repo_name, release }) => {
            assert_eq!(asset.name, "best-default-program-v2.0.uf2");
            assert_eq!(repo_owner, "gizmo-platform");
            assert_eq!(repo_name, "CircuitPython_Gizmo");
            assert_eq!(release.name, "Release 2");
        }
        other => panic!("expected a download, got {:?}", other),
    }
    assert!(page.run(WorkerReport::Running).unwrap().is_none());
    assert!(page.run(ss_done(TaskResult::Path("/cache/p.uf2".to_string()))).unwrap().is_none());
    assert_eq!(page.firmware_path().as_deref(), Some("/cache/p.uf2"));
    assert_eq!(page.current_step(), Step::ChooseDrive);
}

#[test]
fn a_release_without_its_program_file_is_an_error() {
    let mut page = ss_at_choose_version();
    page.select_version(1);
    page.next();
    let error = page.run(WorkerReport::Absent).unwrap_err();
    assert_eq!(error.kind, ErrorKind::AssetNotFound);
    assert_eq!(error.message(), "Could not find best-default-program-v1.0.uf2 in release assets.");
    assert!(page.session().task.is_empty());
}

#[test]
fn the_program_is_copied_to_the_chosen_device() {
    let mut page = ss_at_choose_drive();
    assert!(matches!(page.run(WorkerReport::Absent).unwrap(), Some(TaskRequest::ListDrives)));
    page.run(ss_done(TaskResult::Drives(vec![ss_device("/media/me/RPI-RP2")]))).unwrap();
    assert!(!page.next());
    page.handle(PageEvent::SelectDrive(0));
    assert!(page.next());
    assert_eq!(page.current_step(), Step::InstallFirmware);
    match page.run(WorkerReport::Absent).unwrap() {
        Some(TaskRequest::CopyFirmware { firmware_path, drive }) => {
            assert_eq!(firmware_path, "/cache/program.uf2");
            assert_eq!(drive.drive_path, "/media/me/RPI-RP2");
        }
        other => panic!("expected a copy, got {:?}", other),
    }
    assert!(page.run(WorkerReport::Running).unwrap().is_none());
    assert!(page.run(ss_done(TaskResult::Finished)).unwrap().is_none());
    assert_eq!(page.current_step(), Step::PostInstall);
    assert!(!page.is_loading());
}

#[test]
fn another_device_starts_at_the_drives_again() {
    let mut page = ss_at_choose_drive();
    page.run(WorkerReport::Absent).unwrap();
    page.run(ss_done(TaskResult::Drives(vec![ss_device("/media/me/RPI-RP2")]))).unwrap();
    page.select_drive(0);
    page.next();
    page.run(WorkerReport::Absent).unwrap();
    page.run(ss_done(TaskResult::Finished)).unwrap();
    assert!(page.is_next_enabled());
    assert!(page.next());
    assert_eq!(page.current_step(), Step::ChooseDrive);
    assert!(page.session().available_drives.is_none());
    assert!(page.session().selected_drive.is_none());
    assert_eq!(page.firmware_path().as_deref(), Some("/cache/program.uf2"));
    assert!(matches!(page.run(WorkerReport::Absent).unwrap(), Some(TaskRequest::ListDrives)));
}

#[test]
fn a_copy_that_delivers_a_path_is_an_error() {
    let mut page = ss_at_choose_drive();
    page.run(WorkerReport::Absent).unwrap();
    page.run(ss_done(TaskResult::Drives(vec![ss_device("/media/me/RPI-RP2")]))).unwrap();
    page.select_drive(0);
    page.next();
    page.run(WorkerReport::Absent).unwrap();
    let error = page.run(ss_done(TaskResult::Path("x".to_string()))).unwrap_err();
    assert_eq!(error.kind, ErrorKind::UnexpectedResult);
}

#[test]
fn reset_puts_the_starter_code_page_back_to_its_beginning() {
    let mut page = ss_at_choose_drive();
    page.reset();
    assert_eq!(page.current_step(), Step::ChooseVersion);
    assert!(page.session().available_releases.is_none());
    assert!(page.session().software_version.is_none());
    assert!(page.firmware_path().is_none());
    assert!(page.session().task.is_empty());
}
