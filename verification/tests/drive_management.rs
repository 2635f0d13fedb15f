use gizmo_setup_wizard::drive_management::{
    continue_format, drives_from_json, drives_from_listing, flushed, format_drive, list_drives,
    list_drives_command, write_filesystem_cache, DriveInfo, FormatStage, Launched, Platform,
};
use gizmo_setup_wizard::error::ErrorKind;
use gizmo_setup_wizard::json::JsonValue;
use gizmo_setup_wizard::shell::CommandOutput;

fn drive(path: &str, label: &str) -> DriveInfo {
    DriveInfo { drive_path: path.to_string(), file_system_label: label.to_string() }
}

fn ran(stdout: &str) -> Launched {
    Ok(CommandOutput { success: true, stdout: stdout.as_bytes().to_vec(), stderr: String::new() })
}

fn broke(stderr: &str) -> Launched {
    Ok(CommandOutput { success: false, stdout: Vec::new(), stderr: stderr.to_string() })
}

fn paths_and_labels(drives: &[DriveInfo]) -> Vec<(String, String)> {
    drives.iter().map(|d| (d.drive_path.clone(), d.file_system_label.clone())).collect()
}

fn pair(path: &str, label: &str) -> (String, String) {
    (path.to_string(), label.to_string())
}

#[test]
fn a_drive_is_shown_with_label_and_path() {
    assert_eq!(drive("/media/me/GIZMO1234", "GIZMO1234").display_text(), "GIZMO1234 (/media/me/GIZMO1234)");
    assert_eq!(drive("E:\\", "").display_text(), "unnamed (E:\\)");
}

#[test]
fn drives_are_equal_by_path() {
    assert_eq!(drive("E:\\", "A"), drive("E:\\", "B"));
    assert_ne!(drive("E:\\", "A"), drive("F:\\", "A"));
}

#[test]
fn the_drive_letter_is_the_capital_of_the_first_character() {
    assert_eq!(drive("E:\\", "").get_drive_letter().as_deref(), Some("E"));
    assert_eq!(drive("e:\\data", "").get_drive_letter().as_deref(), Some("E"));
    assert_eq!(drive("z:", "").get_drive_letter().as_deref(), Some("Z"));
}

#[test]
fn paths_without_a_drive_letter_have_none() {
    assert_eq!(drive("/media/me/CARD", "").get_drive_letter(), None);
    assert_eq!(drive("", "").get_drive_letter(), None);
    assert_eq!(drive("E", "").get_drive_letter(), None);
    assert_eq!(drive("1:\\", "").get_drive_letter(), None);
    assert_eq!(drive("EF:\\", "").get_drive_letter(), None);
    assert_eq!(drive("é:\\", "").get_drive_letter(), None);
}

#[test]
fn drives_are_listed_by_platform() {
    let windows = list_drives_command(Platform::Windows, "me");
    assert_eq!(windows.program, "powershell");
    assert_eq!(
        windows.args,
        vec![
            "-Command",
            "Get-Volume | Where-Object {$_.DriveType -eq 'Removable'} | Select-Object DriveLetter, FileSystemLabel | ConvertTo-Json"
        ]
    );
    let linux = list_drives_command(Platform::Linux, "me");
    assert_eq!(linux.program, "bash");
    assert_eq!(linux.args, vec!["-c", "ls /media/me"]);
}

#[test]
fn each_line_of_a_listing_is_a_mounted_drive() {
    let drives = drives_from_listing("me", "GIZMO1234\nRPI-RP2\n");
    assert_eq!(
        paths_and_labels(&drives),
        vec![pair("/media/me/GIZMO1234", "GIZMO1234"), pair("/media/me/RPI-RP2", "RPI-RP2")]
    );
    assert!(drives_from_listing("me", "").is_empty());
}

#[test]
fn list_drives_reads_a_linux_listing() {
    let drives = list_drives(Platform::Linux, "pat", ran("CARD\n")).unwrap();
    assert_eq!(paths_and_labels(&drives), vec![pair("/media/pat/CARD", "CARD")]);
}

#[test]
fn list_drives_reads_an_array_of_volumes() {
    let json = "[{\"DriveLetter\":\"E\",\"FileSystemLabel\":\"GIZMO1\"},{\"DriveLetter\":\"F\",\"FileSystemLabel\":\"\"}]";
    let drives = list_drives(Platform::Windows, "", ran(json)).unwrap();
    assert_eq!(paths_and_labels(&drives), vec![pair("E:\\", "GIZMO1"), pair("F:\\", "")]);
}

#[test]
fn list_drives_reads_a_single_volume_without_brackets() {
    let json = "{\r\n    \"DriveLetter\":  \"E\",\r\n    \"FileSystemLabel\":  \"RPI-RP2\"\r\n}\r\n";
    let drives = list_drives(Platform::Windows, "", ran(json)).unwrap();
    assert_eq!(paths_and_labels(&drives), vec![pair("E:\\", "RPI-RP2")]);
}

#[test]
fn list_drives_reads_no_output_as_no_volume() {
    assert!(list_drives(Platform::Windows, "", ran("")).unwrap().is_empty());
}

#[test]
fn list_drives_rejects_what_is_not_json() {
    let error = list_drives(Platform::Windows, "", ran("[{\"DriveLetter\":")).unwrap_err();
    assert_eq!(error.kind, ErrorKind::InvalidJson);
    assert_eq!(error.message(), "Command output is not valid JSON.");
}

#[test]
fn a_volume_without_a_letter_is_an_error() {
    let json = "[{\"DriveLetter\":null,\"FileSystemLabel\":\"X\"}]";
    let error = list_drives(Platform::Windows, "", ran(json)).unwrap_err();
    assert_eq!(error.kind, ErrorKind::MissingDriveLetter);
    assert_eq!(error.message(), "Missing field DriveLetter in PowerShell output.");
    let absent = list_drives(Platform::Windows, "", ran("[{\"FileSystemLabel\":\"X\"}]")).unwrap_err();
    assert_eq!(absent.kind, ErrorKind::MissingDriveLetter);
}

#[test]
fn a_volume_without_a_label_is_an_error() {
    let json = "[{\"DriveLetter\":\"E\",\"FileSystemLabel\":7}]";
    let error = list_drives(Platform::Windows, "", ran(json)).unwrap_err();
    assert_eq!(error.kind, ErrorKind::MissingFileSystemLabel);
    assert_eq!(error.message(), "Missing field FileSystemLabel in PowerShell output.");
}

#[test]
fn the_first_bad_volume_decides_the_error() {
    let json = "[{\"DriveLetter\":\"E\",\"FileSystemLabel\":\"ok\"},{\"DriveLetter\":\"F\"},{\"FileSystemLabel\":\"x\"}]";
    let error = list_drives(Platform::Windows, "", ran(json)).unwrap_err();
    assert_eq!(error.kind, ErrorKind::MissingFileSystemLabel);
}

#[test]
fn entries_that_are_not_objects_are_passed_over() {
    let json = "[1, \"text\", null, {\"DriveLetter\":\"G\",\"FileSystemLabel\":\"L\"}, [], true]";
    let drives = list_drives(Platform::Windows, "", ran(json)).unwrap();
    assert_eq!(paths_and_labels(&drives), vec![pair("G:\\", "L")]);
}

#[test]
fn drives_from_json_reads_library_values() {
    let volume = JsonValue::Object(vec![
        ("FileSystemLabel".to_string(), JsonValue::Text("CARD".to_string())),
        ("DriveLetter".to_string(), JsonValue::Text("H".to_string())),
        ("Size".to_string(), JsonValue::Number),
    ]);
    let drives = drives_from_json(&JsonValue::Array(vec![JsonValue::Null, volume])).unwrap();
    assert_eq!(paths_and_labels(&drives), vec![pair("H:\\", "CARD")]);
    assert!(drives_from_json(&JsonValue::Bool(true)).unwrap().is_empty());
    assert!(drives_from_json(&JsonValue::Object(Vec::new())).unwrap().is_empty());
    let bad = JsonValue::Array(vec![JsonValue::Object(vec![("DriveLetter".to_string(), JsonValue::Bool(true))])]);
    assert_eq!(drives_from_json(&bad).unwrap_err().kind, ErrorKind::MissingDriveLetter);
}

#[test]
fn a_failed_listing_names_the_listing() {
    let windows = list_drives(Platform::Windows, "", broke("access denied")).unwrap_err();
    assert_eq!(windows.kind, ErrorKind::GetVolumeFailed);
    assert_eq!(windows.message(), "Running Get-Volume failed");
    assert_eq!(windows.detail, "Running shell command failed: access denied");
    let linux = list_drives(Platform::Linux, "me", broke("ls: cannot access")).unwrap_err();
    assert_eq!(linux.kind, ErrorKind::ListDrivesFailed);
    assert_eq!(linux.message(), "Listing removable drives failed.");
    let unlaunched = list_drives(Platform::Linux, "me", Err("bash not found".to_string())).unwrap_err();
    assert_eq!(unlaunched.kind, ErrorKind::ListDrivesFailed);
    assert_eq!(unlaunched.detail, "bash not found");
}

#[test]
fn a_listing_that_is_not_utf8_is_an_error() {
    let output = CommandOutput { success: true, stdout: vec![0xc3, 0x28], stderr: String::new() };
    assert_eq!(list_drives(Platform::Linux, "me", Ok(output)).unwrap_err().kind, ErrorKind::InvalidUtf8);
}

#[test]
fn formatting_on_windows_is_one_command() {
    let (mut progress, command) = format_drive(Platform::Windows, &drive("e:\\", "OLD"), "1234").unwrap();
    assert_eq!(progress.stage, FormatStage::Formatting);
    assert_eq!(command.program, "powershell");
    assert_eq!(
        command.args,
        vec!["-Command", "Format-Volume -DriveLetter E -FileSystem FAT32 -NewFileSystemLabel 'GIZMO1234'"]
    );
    let next = continue_format(Platform::Windows, "1234", &mut progress, ran("")).unwrap();
    assert!(next.is_none());
    assert_eq!(progress.stage, FormatStage::Done);
}

#[test]
fn formatting_on_windows_needs_a_drive_letter() {
    let error = format_drive(Platform::Windows, &drive("/media/me/X", "X"), "1").unwrap_err();
    assert_eq!(error.kind, ErrorKind::NoDriveLetter);
    assert_eq!(error.message(), "Could not determine drive letter.");
}

#[test]
fn formatting_on_linux_looks_up_unmounts_formats_and_mounts() {
    let (mut progress, command) = format_drive(Platform::Linux, &drive("/media/me/OLD", "OLD"), "42").unwrap();
    assert_eq!(progress.stage, FormatStage::LookingUp);
    assert_eq!(command.program, "bash");
    assert_eq!(command.args, vec!["-c", "df /media/me/OLD | awk 'NR>1{print $1}'"]);

    let unmount = continue_format(Platform::Linux, "42", &mut progress, ran("/dev/sdb1")).unwrap().unwrap();
    assert_eq!(progress.stage, FormatStage::Unmounting);
    assert_eq!(progress.block_device, "/dev/sdb1");
    assert_eq!(unmount.program, "bash");
    assert_eq!(unmount.args, vec!["-c", "udisksctl unmount -b /dev/sdb1"]);

    let make = continue_format(Platform::Linux, "42", &mut progress, ran("Unmounted.")).unwrap().unwrap();
    assert_eq!(progress.stage, FormatStage::Formatting);
    assert_eq!(make.program, "pkexec");
    assert_eq!(make.args, vec!["bash", "-c", "mkfs.vfat -F 32 -n 'GIZMO42' /dev/sdb1"]);

    let mount = continue_format(Platform::Linux, "42", &mut progress, ran("")).unwrap().unwrap();
    assert_eq!(progress.stage, FormatStage::Mounting);
    assert_eq!(mount.program, "bash");
    assert_eq!(mount.args, vec!["-c", "udisksctl mount -b /dev/sdb1"]);

    assert!(continue_format(Platform::Linux, "42", &mut progress, ran("")).unwrap().is_none());
    assert_eq!(progress.stage, FormatStage::Done);
    assert!(continue_format(Platform::Linux, "42", &mut progress, broke("late")).unwrap().is_none());
    assert_eq!(progress.stage, FormatStage::Done);
}

#[test]
fn the_block_device_is_used_as_it_was_printed() {
    let (mut progress, _) = format_drive(Platform::Linux, &drive("/media/me/OLD", "OLD"), "7").unwrap();
    let unmount = continue_format(Platform::Linux, "7", &mut progress, ran("/dev/sdc1\n")).unwrap().unwrap();
    assert_eq!(unmount.args, vec!["-c", "udisksctl unmount -b /dev/sdc1\n"]);
    let make = continue_format(Platform::Linux, "7", &mut progress, ran("")).unwrap().unwrap();
    assert_eq!(make.args, vec!["bash", "-c", "mkfs.vfat -F 32 -n 'GIZMO7' /dev/sdc1\n"]);
}

#[test]
fn each_stage_of_the_formatting_names_its_failure() {
    let old = drive("/media/me/OLD", "OLD");
    let (mut progress, _) = format_drive(Platform::Linux, &old, "1").unwrap();
    let error = continue_format(Platform::Linux, "1", &mut progress, broke("df: no")).unwrap_err();
    assert_eq!(error.kind, ErrorKind::BlockDeviceLookupFailed);
    assert_eq!(error.message(), "Failed to look up drive block device.");
    assert_eq!(error.detail, "Running shell command failed: df: no");
    assert_eq!(progress.stage, FormatStage::Failed);
    assert!(continue_format(Platform::Linux, "1", &mut progress, ran("")).unwrap().is_none());
    assert_eq!(progress.stage, FormatStage::Failed);

    let (mut progress, _) = format_drive(Platform::Linux, &old, "1").unwrap();
    continue_format(Platform::Linux, "1", &mut progress, ran("/dev/sdb1")).unwrap();
    let error = continue_format(Platform::Linux, "1", &mut progress, broke("busy")).unwrap_err();
    assert_eq!(error.kind, ErrorKind::UnmountFailed);
    assert_eq!(error.message(), "Unmounting disk failed.");
    assert_eq!(progress.stage, FormatStage::Failed);

    let (mut progress, _) = format_drive(Platform::Linux, &old, "1").unwrap();
    continue_format(Platform::Linux, "1", &mut progress, ran("/dev/sdb1")).unwrap();
    continue_format(Platform::Linux, "1", &mut progress, ran("")).unwrap();
    let error = continue_format(Platform::Linux, "1", &mut progress, Err("pkexec missing".to_string())).unwrap_err();
    assert_eq!(error.kind, ErrorKind::FormatFailed);
    assert_eq!(error.message(), "Formatting disk failed.");
    assert_eq!(error.detail, "pkexec missing");

    let (mut progress, _) = format_drive(Platform::Linux, &old, "1").unwrap();
    continue_format(Platform::Linux, "1", &mut progress, ran("/dev/sdb1")).unwrap();
    continue_format(Platform::Linux, "1", &mut progress, ran("")).unwrap();
    continue_format(Platform::Linux, "1", &mut progress, ran("")).unwrap();
    let error = continue_format(Platform::Linux, "1", &mut progress, broke("no")).unwrap_err();
    assert_eq!(error.kind, ErrorKind::MountFailed);
    assert_eq!(error.message(), "Mounting disk failed.");

    let (mut progress, _) = format_drive(Platform::Windows, &drive("E:\\", ""), "1").unwrap();
    let error = continue_format(Platform::Windows, "1", &mut progress, broke("no")).unwrap_err();
    assert_eq!(error.kind, ErrorKind::FormatVolumeFailed);
    assert_eq!(error.message(), "Running Format-Volume failed");
}

#[test]
fn a_block_device_that_is_not_utf8_fails_the_formatting() {
    let (mut progress, _) = format_drive(Platform::Linux, &drive("/media/me/OLD", "OLD"), "1").unwrap();
    let output = CommandOutput { success: true, stdout: vec![0xff], stderr: String::new() };
    let error = continue_format(Platform::Linux, "1", &mut progress, Ok(output)).unwrap_err();
    assert_eq!(error.kind, ErrorKind::InvalidUtf8);
    assert_eq!(progress.stage, FormatStage::Failed);
}

#[test]
fn flushing_goes_by_platform() {
    let linux = write_filesystem_cache(Platform::Linux, &drive("/media/me/GIZMO1", "GIZMO1")).unwrap();
    assert_eq!(linux.program, "bash");
    assert_eq!(linux.args, vec!["-c", "sync /media/me/GIZMO1"]);
    let windows = write_filesystem_cache(Platform::Windows, &drive("f:\\", "GIZMO1")).unwrap();
    assert_eq!(windows.program, "powershell");
    assert_eq!(windows.args, vec!["-Command", "Write-VolumeCache -DriveLetter F"]);
    let error = write_filesystem_cache(Platform::Windows, &drive("\\\\server\\share", "")).unwrap_err();
    assert_eq!(error.kind, ErrorKind::NoDriveLetter);
}

#[test]
fn a_failed_flush_is_named() {
    assert!(flushed(ran("")).is_ok());
    let error = flushed(broke("sync: error")).unwrap_err();
    assert_eq!(error.kind, ErrorKind::FlushFailed);
    assert_eq!(error.message(), "Writing filesystem cache failed");
    assert_eq!(error.detail, "Running shell command failed: sync: error");
}
