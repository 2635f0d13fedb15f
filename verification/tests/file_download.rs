use gizmo_setup_wizard::error::ErrorKind;
use gizmo_setup_wizard::file_download::download_file;

#[test]
fn a_successful_answer_is_written_below_the_parent_of_the_destination() {
    let write = download_file("/cache/o/r/v1/a.zip", true, "200 OK").unwrap();
    assert_eq!(write.directory, "/cache/o/r/v1");
    assert_eq!(write.path, "/cache/o/r/v1/a.zip");
}

#[test]
fn a_relative_destination_of_one_component_has_an_empty_parent() {
    let write = download_file("a.zip", true, "200 OK").unwrap();
    assert_eq!(write.directory, "");
    assert_eq!(write.path, "a.zip");
}

#[test]
fn an_unsuccessful_download_quotes_its_status() {
    let error = download_file("/cache/a.zip", false, "404 Not Found").unwrap_err();
    assert_eq!(error.kind, ErrorKind::DownloadFailed);
    assert_eq!(error.message(), "Failed to download file: 404 Not Found");
}

#[test]
fn a_destination_without_a_parent_is_an_error() {
    let error = download_file("/", true, "200 OK").unwrap_err();
    assert_eq!(error.kind, ErrorKind::NoDownloadParent);
    assert_eq!(error.message(), "Could not get parent of download destination from: /");
    assert_eq!(download_file("", true, "200 OK").unwrap_err().kind, ErrorKind::NoDownloadParent);
}

#[test]
fn the_status_is_judged_before_the_destination() {
    assert_eq!(download_file("/", false, "500").unwrap_err().kind, ErrorKind::DownloadFailed);
}
