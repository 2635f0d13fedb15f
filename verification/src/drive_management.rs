//! Removable drives: how they are named, listed, formatted and flushed.
//!
//! Nothing here touches a drive. The functions build the shell commands that
//! do, and say what the outcome of each command means.

use crate::error::{message_text, plain_error, ErrorKind, ErrorModel, WizardError};
use crate::json::{content, member_text, parse, parsed_json, text_of_member, JsonValue};
use crate::shell::{
    admin_bash_command, bash_command, output_text, powershell_command, run_admin_bash_command,
    run_bash_command, run_command, run_powershell_command, CommandModel, CommandOutput,
    ShellCommand,
};
use crate::text::{
    ascii_letter, ascii_upper, is_ascii_letter, lines, lines_of, starts_with, to_ascii_upper,
};
use vstd::prelude::*;
use vstd::std_specs::cmp::PartialEqSpecImpl;
use vstd::string::{StrSliceExecFns, StringExecFns};
use vstd::utf8::{decode_utf8, valid_utf8};

verus! {

/// The host system, which decides how drives are listed, formatted and flushed.
#[derive(Clone, Copy, PartialEq, Eq, Structural, Debug)]
pub enum Platform {
    Windows,
    Linux,
}

/// A removable drive.
#[derive(Debug)]
pub struct DriveInfo {
    /// Where the drive is mounted.
    pub drive_path: String,
    /// The label of the drive's file system; empty if it has none.
    pub file_system_label: String,
}

/// The mathematical content of a [`DriveInfo`].
pub ghost struct DriveModel {
    pub drive_path: Seq<char>,
    pub file_system_label: Seq<char>,
}

impl DeepView for DriveInfo {
    type V = DriveModel;

    open spec fn deep_view(&self) -> DriveModel {
        DriveModel { drive_path: self.drive_path@, file_system_label: self.file_system_label@ }
    }
}

impl View for DriveInfo {
    type V = DriveModel;

    open spec fn view(&self) -> DriveModel {
        self.deep_view()
    }
}

impl Clone for DriveInfo {
    fn clone(&self) -> (copy: Self)
        ensures
            copy == *self,
    {
        DriveInfo {
            drive_path: self.drive_path.clone(),
            file_system_label: self.file_system_label.clone(),
        }
    }
}

impl PartialEq for DriveInfo {
    /// Two drives are equal when their paths are.
    fn eq(&self, other: &Self) -> (equal: bool) {
        self.drive_path == other.drive_path
    }
}

impl PartialEqSpecImpl for DriveInfo {
    open spec fn obeys_eq_spec() -> bool {
        true
    }

    open spec fn eq_spec(&self, other: &Self) -> bool {
        self.drive_path@ == other.drive_path@
    }
}

/// How a drive is shown: its label, or `unnamed` if it has none, and its path
/// in brackets.
pub open spec fn drive_text(drive: DriveModel) -> Seq<char> {
    let name = if drive.file_system_label.len() == 0 {
        "unnamed"@
    } else {
        drive.file_system_label
    };
    name + " ("@ + drive.drive_path + ")"@
}

/// The drive letter that a path begins with: the capital form of its first
/// character, if that is a letter and a colon follows it.
pub open spec fn drive_letter(path: Seq<char>) -> Option<char> {
    if path.len() >= 2 && is_ascii_letter(path[0]) && path[1] == ':' {
        Some(ascii_upper(path[0]))
    } else {
        None
    }
}

impl DriveInfo {
    /// The text that shows the drive to the operator.
    pub fn display_text(&self) -> (text: String)
        ensures
            text@ == drive_text(self@),
    {
        let name = if self.file_system_label.as_str().unicode_len() == 0 {
            String::from_str("unnamed")
        } else {
            self.file_system_label.clone()
        };
        name.concat(" (").concat(self.drive_path.as_str()).concat(")")
    }

    /// The drive's letter as a text of one character, if its path begins with
    /// one.
    pub fn get_drive_letter(&self) -> (letter: Option<String>)
        ensures
            letter.deep_view() == match drive_letter(self@.drive_path) {
                Some(c) => Some(seq![c]),
                None => None,
            },
    {
        let path = self.drive_path.as_str();
        if path.unicode_len() < 2 {
            return None;
        }
        let first = path.get_char(0);
        if ascii_letter(first) && path.get_char(1) == ':' {
            let mut text = String::new();
            text.push(to_ascii_upper(first));
            assert(text@ =~= seq![ascii_upper(first)]);
            Some(text)
        } else {
            None
        }
    }
}

/// What a run of a command came to, as the caller saw it: the output of the
/// command, or the reason why it could not be run.
pub type Launched = Result<CommandOutput, String>;

/// What a run of a command means: its output if it ran and reported success,
/// and otherwise the error with which it failed.
pub open spec fn judged(launched: Launched) -> Result<CommandOutput, ErrorModel> {
    match launched {
        Ok(output) => if output.success {
            Ok(output)
        } else {
            Err(ErrorModel { kind: ErrorKind::CommandFailed, detail: output.stderr@ })
        },
        Err(reason) => Err(ErrorModel { kind: ErrorKind::Operation, detail: reason@ }),
    }
}

/// The error of the given kind that an error has caused.
pub open spec fn caused(kind: ErrorKind, cause: ErrorModel) -> ErrorModel {
    ErrorModel { kind, detail: message_text(cause.kind, cause.detail) }
}

/// The content of a command, if there is one.
pub open spec fn command_view(command: Option<ShellCommand>) -> Option<CommandModel> {
    match command {
        Some(command) => Some(command@),
        None => None,
    }
}

/// The PowerShell text that lists the removable volumes as JSON.
pub open spec fn get_volume_text() -> Seq<char> {
    "Get-Volume | Where-Object {$_.DriveType -eq 'Removable'} | Select-Object DriveLetter, FileSystemLabel | ConvertTo-Json"@
}

/// The command that lists the removable drives: on Windows the removable
/// volumes, on Linux what is mounted for the user.
pub open spec fn list_command(platform: Platform, username: Seq<char>) -> CommandModel {
    match platform {
        Platform::Windows => powershell_command(get_volume_text()),
        Platform::Linux => bash_command("ls /media/"@ + username),
    }
}

/// Builds the command that lists the removable drives.
pub fn list_drives_command(platform: Platform, username: &str) -> (command: ShellCommand)
    ensures
        command@ == list_command(platform, username@),
{
    match platform {
        Platform::Windows => run_powershell_command(
            "Get-Volume | Where-Object {$_.DriveType -eq 'Removable'} | Select-Object DriveLetter, FileSystemLabel | ConvertTo-Json",
        ),
        Platform::Linux => {
            let text = String::from_str("ls /media/").concat(username);
            run_bash_command(text.as_str())
        },
    }
}

/// The drive that is mounted for the user under the given name.
pub open spec fn mounted_drive(username: Seq<char>, name: Seq<char>) -> DriveModel {
    DriveModel { drive_path: "/media/"@ + username + "/"@ + name, file_system_label: name }
}

/// The drives that a listing of what is mounted for the user names: one for
/// each line, in order.
pub open spec fn mounted_drives(username: Seq<char>, listing: Seq<char>) -> Seq<DriveModel> {
    lines_of(listing).map_values(|name: Seq<char>| mounted_drive(username, name))
}

/// Reads a listing of what is mounted for the user.
pub fn drives_from_listing(username: &str, listing: &str) -> (drives: Vec<DriveInfo>)
    ensures
        drives.deep_view() == mounted_drives(username@, listing@),
{
    let names = lines(listing);
    let mut drives: Vec<DriveInfo> = Vec::new();
    let mut i: usize = 0;
    while i < names.len()
        invariant
            i <= names.len(),
            names.deep_view() == lines_of(listing@),
            drives.deep_view() == names.deep_view().take(i as int).map_values(
                |name: Seq<char>| mounted_drive(username@, name),
            ),
        decreases names.len() - i,
    {
        let ghost before = drives.deep_view();
        let name = names[i].as_str();
        let drive = DriveInfo {
            drive_path: String::from_str("/media/").concat(username).concat("/").concat(name),
            file_system_label: String::from_str(name),
        };
        drives.push(drive);
        proof {
            assert(drives.deep_view() =~= before.push(drives@.last()@));
        }
        i += 1;
    }
    drives
}

/// The drive of a volume with the given letter and label.
pub open spec fn volume_drive(letter: Seq<char>, label: Seq<char>) -> DriveModel {
    DriveModel { drive_path: letter + ":\\"@, file_system_label: label }
}

/// What an entry of a listing of volumes stands for. An object stands for a
/// drive, if its members `DriveLetter` and `FileSystemLabel` are texts, and
/// for an error otherwise. Anything else stands for nothing.
pub open spec fn volume_of(entry: JsonValue) -> Option<Result<DriveModel, ErrorModel>> {
    match entry {
        JsonValue::Object(members) => Some(
            match member_text(members@, "DriveLetter"@) {
                None => Err(plain_error(ErrorKind::MissingDriveLetter)),
                Some(letter) => match member_text(members@, "FileSystemLabel"@) {
                    None => Err(plain_error(ErrorKind::MissingFileSystemLabel)),
                    Some(label) => Ok(volume_drive(letter, label)),
                },
            },
        ),
        _ => None,
    }
}

/// The drives that the entries of a listing of volumes stand for, in order;
/// or the error of the first entry that stands for one.
pub open spec fn volumes_of(entries: Seq<JsonValue>) -> Result<Seq<DriveModel>, ErrorModel>
    decreases entries.len(),
{
    if entries.len() == 0 {
        Ok(Seq::empty())
    } else {
        match volumes_of(entries.drop_last()) {
            Err(error) => Err(error),
            Ok(drives) => match volume_of(entries.last()) {
                None => Ok(drives),
                Some(Err(error)) => Err(error),
                Some(Ok(drive)) => Ok(drives.push(drive)),
            },
        }
    }
}

/// The drives that a listing of volumes stands for: those of its entries, if
/// it is an array, and none otherwise.
pub open spec fn listed_volumes(listing: JsonValue) -> Result<Seq<DriveModel>, ErrorModel> {
    match listing {
        JsonValue::Array(entries) => volumes_of(entries@),
        _ => Ok(Seq::empty()),
    }
}

/// Reads one entry of a listing of volumes.
fn drive_from_json(entry: &JsonValue) -> (drive: Option<Result<DriveInfo, WizardError>>)
    ensures
        match drive {
            None => volume_of(*entry) is None,
            Some(Ok(found)) => volume_of(*entry) == Some(Ok::<DriveModel, ErrorModel>(found@)),
            Some(Err(error)) => volume_of(*entry) == Some(Err::<DriveModel, ErrorModel>(error@)),
        },
{
    match entry {
        JsonValue::Object(members) => {
            let letter = match text_of_member(members, "DriveLetter") {
                Some(letter) => letter,
                None => {
                    return Some(Err(WizardError::new(ErrorKind::MissingDriveLetter)));
                },
            };
            let label = match text_of_member(members, "FileSystemLabel") {
                Some(label) => label,
                None => {
                    return Some(Err(WizardError::new(ErrorKind::MissingFileSystemLabel)));
                },
            };
            Some(
                Ok(
                    DriveInfo {
                        drive_path: letter.clone().concat(":\\"),
                        file_system_label: label.clone(),
                    },
                ),
            )
        },
        _ => None,
    }
}

/// Reads a listing of volumes.
pub fn drives_from_json(listing: &JsonValue) -> (drives: Result<Vec<DriveInfo>, WizardError>)
    ensures
        match drives {
            Ok(found) => listed_volumes(*listing) == Ok::<Seq<DriveModel>, ErrorModel>(
                found.deep_view(),
            ),
            Err(error) => listed_volumes(*listing) == Err::<Seq<DriveModel>, ErrorModel>(error@),
        },
{
    let mut found: Vec<DriveInfo> = Vec::new();
    let entries = match listing {
        JsonValue::Array(entries) => entries,
        _ => {
            assert(found.deep_view() =~= Seq::<DriveModel>::empty());
            return Ok(found);
        },
    };
    let mut i: usize = 0;
    proof {
        assert(found.deep_view() =~= Seq::<DriveModel>::empty());
    }
    while i < entries.len()
        invariant
            i <= entries.len(),
            listed_volumes(*listing) == volumes_of(entries@),
            volumes_of(entries@.take(i as int)) == Ok::<Seq<DriveModel>, ErrorModel>(
                found.deep_view(),
            ),
        decreases entries.len() - i,
    {
        let ghost before = found.deep_view();
        proof {
            assert(entries@.take(i + 1).drop_last() =~= entries@.take(i as int));
        }
        match drive_from_json(&entries[i]) {
            None => {},
            Some(Ok(drive)) => {
                found.push(drive);
                assert(found.deep_view() =~= before.push(found@.last()@));
            },
            Some(Err(error)) => {
                proof {
                    lemma_volumes_error_stays(entries@, i + 1);
                }
                return Err(error);
            },
        }
        i += 1;
    }
    proof {
        assert(entries@.take(i as int) =~= entries@);
    }
    Ok(found)
}

/// An error among the first entries of a listing is the error of the whole
/// listing.
proof fn lemma_volumes_error_stays(entries: Seq<JsonValue>, count: int)
    requires
        0 <= count <= entries.len(),
        volumes_of(entries.take(count)) is Err,
    ensures
        volumes_of(entries) == volumes_of(entries.take(count)),
    decreases entries.len() - count,
{
    if count < entries.len() {
        assert(entries.take(count + 1).drop_last() =~= entries.take(count));
        lemma_volumes_error_stays(entries, count + 1);
    } else {
        assert(entries.take(count) =~= entries);
    }
}

/// A listing of volumes as an array: PowerShell prints a single volume
/// without the brackets of an array, and no volume as nothing.
pub open spec fn as_array_text(listing: Seq<char>) -> Seq<char> {
    if "["@.is_prefix_of(listing) {
        listing
    } else {
        "["@ + listing + "]"@
    }
}

/// The removable drives that the command that lists them has found.
///
/// A command that failed is an error that names the listing, and so is output
/// that is not valid UTF-8. On Linux each line of the output names a drive
/// that is mounted for the user. On Windows the output is a listing of
/// volumes as JSON, and output that is not valid JSON is an error.
pub open spec fn listed_drives(platform: Platform, username: Seq<char>, outcome: Launched)
    -> Result<Seq<DriveModel>, ErrorModel> {
    match judged(outcome) {
        Err(cause) => Err(
            caused(
                match platform {
                    Platform::Windows => ErrorKind::GetVolumeFailed,
                    Platform::Linux => ErrorKind::ListDrivesFailed,
                },
                cause,
            ),
        ),
        Ok(output) => if !valid_utf8(output.stdout@) {
            Err(plain_error(ErrorKind::InvalidUtf8))
        } else {
            let text = decode_utf8(output.stdout@);
            match platform {
                Platform::Linux => Ok(mounted_drives(username, text)),
                Platform::Windows => match parsed_json(as_array_text(text)) {
                    Some(listing) => listed_volumes(listing),
                    None => Err(plain_error(ErrorKind::InvalidJson)),
                },
            }
        },
    }
}

/// Reads what the command that lists the removable drives has found.
/// `outcome` is how the run of the command of [`list_drives_command`] went.
pub fn list_drives(platform: Platform, username: &str, outcome: Launched) -> (drives: Result<
    Vec<DriveInfo>,
    WizardError,
>)
    ensures
        match drives {
            Ok(found) => listed_drives(platform, username@, outcome) == Ok::<
                Seq<DriveModel>,
                ErrorModel,
            >(found.deep_view()),
            Err(error) => listed_drives(platform, username@, outcome) == Err::<
                Seq<DriveModel>,
                ErrorModel,
            >(error@),
        },
{
    let output = match run_command(outcome) {
        Ok(output) => output,
        Err(cause) => {
            return match platform {
                Platform::Windows => Err(cause.context(ErrorKind::GetVolumeFailed)),
                Platform::Linux => Err(cause.context(ErrorKind::ListDrivesFailed)),
            };
        },
    };
    let text = match output_text(output) {
        Ok(text) => text,
        Err(error) => {
            return Err(error);
        },
    };
    match platform {
        Platform::Linux => Ok(drives_from_listing(username, text.as_str())),
        Platform::Windows => {
            let listing = if starts_with(text.as_str(), "[") {
                text
            } else {
                String::from_str("[").concat(text.as_str()).concat("]")
            };
            match parse(listing.as_str()) {
                Ok(document) => drives_from_json(&content(document)),
                Err(_) => Err(WizardError::new(ErrorKind::InvalidJson)),
            }
        },
    }
}

/// Where the formatting of a drive is.
#[derive(Clone, Copy, PartialEq, Eq, Structural, Debug)]
pub enum FormatStage {
    /// The block device of the drive is being looked up.
    LookingUp,
    /// The drive is being unmounted.
    Unmounting,
    /// The file system is being made.
    Formatting,
    /// The drive is being mounted again.
    Mounting,
    /// The drive is formatted.
    Done,
    /// The formatting has failed.
    Failed,
}

/// The state of the formatting of a drive.
#[derive(Debug)]
pub struct FormatProgress {
    pub stage: FormatStage,
    /// The block device of the drive, once it has been looked up.
    pub block_device: String,
}

/// The mathematical content of a [`FormatProgress`].
pub ghost struct FormatModel {
    pub stage: FormatStage,
    pub block_device: Seq<char>,
}

impl View for FormatProgress {
    type V = FormatModel;

    open spec fn view(&self) -> FormatModel {
        FormatModel { stage: self.stage, block_device: self.block_device@ }
    }
}

/// The PowerShell text that formats the volume with the given letter for a
/// team.
pub open spec fn format_volume_text(letter: char, team_number: Seq<char>) -> Seq<char> {
    "Format-Volume -DriveLetter "@ + seq![letter] + " -FileSystem FAT32 -NewFileSystemLabel 'GIZMO"@
        + team_number + "'"@
}

/// The shell text that prints the block device of what is mounted at a path.
pub open spec fn look_up_text(drive_path: Seq<char>) -> Seq<char> {
    "df "@ + drive_path + " | awk 'NR>1{print $1}'"@
}

/// The shell text that unmounts a block device.
pub open spec fn unmount_text(block_device: Seq<char>) -> Seq<char> {
    "udisksctl unmount -b "@ + block_device
}

/// The shell text that makes the file system of a team on a block device.
pub open spec fn make_filesystem_text(team_number: Seq<char>, block_device: Seq<char>) -> Seq<
    char,
> {
    "mkfs.vfat -F 32 -n 'GIZMO"@ + team_number + "' "@ + block_device
}

/// The shell text that mounts a block device.
pub open spec fn mount_text(block_device: Seq<char>) -> Seq<char> {
    "udisksctl mount -b "@ + block_device
}

/// How the formatting of a drive for a team begins: with the first command
/// and the stage that waits for it. On Windows one command formats the volume
/// of the drive's letter, and a drive without a letter is an error. On Linux
/// the first command looks up the drive's block device.
pub open spec fn format_start(platform: Platform, drive: DriveModel, team_number: Seq<char>)
    -> Result<(FormatModel, CommandModel), ErrorModel> {
    match platform {
        Platform::Windows => match drive_letter(drive.drive_path) {
            Some(letter) => Ok(
                (
                    FormatModel { stage: FormatStage::Formatting, block_device: Seq::empty() },
                    powershell_command(format_volume_text(letter, team_number)),
                ),
            ),
            None => Err(plain_error(ErrorKind::NoDriveLetter)),
        },
        Platform::Linux => Ok(
            (
                FormatModel { stage: FormatStage::LookingUp, block_device: Seq::empty() },
                bash_command(look_up_text(drive.drive_path)),
            ),
        ),
    }
}

/// The formatting once it has failed.
pub open spec fn format_failed(pre: FormatModel) -> FormatModel {
    FormatModel { stage: FormatStage::Failed, ..pre }
}

/// How the formatting goes on when the command that it waited for has run.
///
/// A command that failed fails the formatting, with an error that names the
/// stage. Otherwise, on Linux, the block device that was looked up is
/// unmounted, then the file system is made with administrator rights, then
/// the block device is mounted again; on Windows the formatting is done after
/// its one command. A formatting that is done or has failed has no further
/// command.
pub open spec fn format_next(
    platform: Platform,
    team_number: Seq<char>,
    pre: FormatModel,
    outcome: Launched,
) -> (FormatModel, Result<Option<CommandModel>, ErrorModel>) {
    match pre.stage {
        FormatStage::LookingUp => match judged(outcome) {
            Err(cause) => (
                format_failed(pre),
                Err(caused(ErrorKind::BlockDeviceLookupFailed, cause)),
            ),
            Ok(output) => if valid_utf8(output.stdout@) {
                let block_device = decode_utf8(output.stdout@);
                (
                    FormatModel { stage: FormatStage::Unmounting, block_device },
                    Ok(Some(bash_command(unmount_text(block_device)))),
                )
            } else {
                (format_failed(pre), Err(plain_error(ErrorKind::InvalidUtf8)))
            },
        },
        FormatStage::Unmounting => match judged(outcome) {
            Err(cause) => (format_failed(pre), Err(caused(ErrorKind::UnmountFailed, cause))),
            Ok(_) => (
                FormatModel { stage: FormatStage::Formatting, ..pre },
                Ok(Some(admin_bash_command(make_filesystem_text(team_number, pre.block_device)))),
            ),
        },
        FormatStage::Formatting => match judged(outcome) {
            Err(cause) => (
                format_failed(pre),
                Err(
                    caused(
                        match platform {
                            Platform::Windows => ErrorKind::FormatVolumeFailed,
                            Platform::Linux => ErrorKind::FormatFailed,
                        },
                        cause,
                    ),
                ),
            ),
            Ok(_) => match platform {
                Platform::Windows => (FormatModel { stage: FormatStage::Done, ..pre }, Ok(None)),
                Platform::Linux => (
                    FormatModel { stage: FormatStage::Mounting, ..pre },
                    Ok(Some(bash_command(mount_text(pre.block_device)))),
                ),
            },
        },
        FormatStage::Mounting => match judged(outcome) {
            Err(cause) => (format_failed(pre), Err(caused(ErrorKind::MountFailed, cause))),
            Ok(_) => (FormatModel { stage: FormatStage::Done, ..pre }, Ok(None)),
        },
        FormatStage::Done => (pre, Ok(None)),
        FormatStage::Failed => (pre, Ok(None)),
    }
}

/// The content of the result of a step of the formatting.
pub open spec fn format_result_view(result: Result<Option<ShellCommand>, WizardError>) -> Result<
    Option<CommandModel>,
    ErrorModel,
> {
    match result {
        Ok(command) => Ok(command_view(command)),
        Err(error) => Err(error@),
    }
}

/// Begins the formatting of a drive for a team, whose number becomes part of
/// the drive's label. The result is the state of the formatting and the first
/// command to run. The formatting destroys what is on the drive.
pub fn format_drive(platform: Platform, drive: &DriveInfo, team_number: &str) -> (begun: Result<
    (FormatProgress, ShellCommand),
    WizardError,
>)
    ensures
        match begun {
            Ok((progress, command)) => format_start(platform, drive@, team_number@) == Ok::<
                (FormatModel, CommandModel),
                ErrorModel,
            >((progress@, command@)),
            Err(error) => format_start(platform, drive@, team_number@) == Err::<
                (FormatModel, CommandModel),
                ErrorModel,
            >(error@),
        },
{
    match platform {
        Platform::Windows => {
            let letter = match drive.get_drive_letter() {
                Some(letter) => letter,
                None => {
                    return Err(WizardError::new(ErrorKind::NoDriveLetter));
                },
            };
            let text = String::from_str("Format-Volume -DriveLetter ").concat(
                letter.as_str(),
            ).concat(" -FileSystem FAT32 -NewFileSystemLabel 'GIZMO").concat(team_number).concat(
                "'",
            );
            Ok(
                (
                    FormatProgress { stage: FormatStage::Formatting, block_device: String::new() },
                    run_powershell_command(text.as_str()),
                ),
            )
        },
        Platform::Linux => {
            let text = String::from_str("df ").concat(drive.drive_path.as_str()).concat(
                " | awk 'NR>1{print $1}'",
            );
            Ok(
                (
                    FormatProgress { stage: FormatStage::LookingUp, block_device: String::new() },
                    run_bash_command(text.as_str()),
                ),
            )
        },
    }
}

/// Goes on with the formatting of a drive when the command that it waited for
/// has run. The result is the next command to run, or nothing when the
/// formatting is done.
pub fn continue_format(
    platform: Platform,
    team_number: &str,
    progress: &mut FormatProgress,
    outcome: Launched,
) -> (next: Result<Option<ShellCommand>, WizardError>)
    ensures
        (final(progress)@, format_result_view(next)) == format_next(
            platform,
            team_number@,
            old(progress)@,
            outcome,
        ),
{
    match progress.stage {
        FormatStage::LookingUp => {
            let output = match run_command(outcome) {
                Ok(output) => output,
                Err(cause) => {
                    progress.stage = FormatStage::Failed;
                    return Err(cause.context(ErrorKind::BlockDeviceLookupFailed));
                },
            };
            match output_text(output) {
                Ok(block_device) => {
                    let text = String::from_str("udisksctl unmount -b ").concat(
                        block_device.as_str(),
                    );
                    progress.block_device = block_device;
                    progress.stage = FormatStage::Unmounting;
                    Ok(Some(run_bash_command(text.as_str())))
                },
                Err(error) => {
                    progress.stage = FormatStage::Failed;
                    Err(error)
                },
            }
        },
        FormatStage::Unmounting => match run_command(outcome) {
            Ok(_) => {
                let text = String::from_str("mkfs.vfat -F 32 -n 'GIZMO").concat(
                    team_number,
                ).concat("' ").concat(progress.block_device.as_str());
                progress.stage = FormatStage::Formatting;
                Ok(Some(run_admin_bash_command(text.as_str())))
            },
            Err(cause) => {
                progress.stage = FormatStage::Failed;
                Err(cause.context(ErrorKind::UnmountFailed))
            },
        },
        FormatStage::Formatting => match run_command(outcome) {
            Ok(_) => match platform {
                Platform::Windows => {
                    progress.stage = FormatStage::Done;
                    Ok(None)
                },
                Platform::Linux => {
                    let text = String::from_str("udisksctl mount -b ").concat(
                        progress.block_device.as_str(),
                    );
                    progress.stage = FormatStage::Mounting;
                    Ok(Some(run_bash_command(text.as_str())))
                },
            },
            Err(cause) => {
                progress.stage = FormatStage::Failed;
                match platform {
                    Platform::Windows => Err(cause.context(ErrorKind::FormatVolumeFailed)),
                    Platform::Linux => Err(cause.context(ErrorKind::FormatFailed)),
                }
            },
        },
        FormatStage::Mounting => match run_command(outcome) {
            Ok(_) => {
                progress.stage = FormatStage::Done;
                Ok(None)
            },
            Err(cause) => {
                progress.stage = FormatStage::Failed;
                Err(cause.context(ErrorKind::MountFailed))
            },
        },
        FormatStage::Done => Ok(None),
        FormatStage::Failed => Ok(None),
    }
}

/// The command that flushes what was written to a drive: on Windows the cache
/// of the volume of the drive's letter, and a drive without a letter is an
/// error; on Linux the file system at the drive's path.
pub open spec fn flush_command(platform: Platform, drive: DriveModel) -> Result<
    CommandModel,
    ErrorModel,
> {
    match platform {
        Platform::Windows => match drive_letter(drive.drive_path) {
            Some(letter) => Ok(
                powershell_command("Write-VolumeCache -DriveLetter "@ + seq![letter]),
            ),
            None => Err(plain_error(ErrorKind::NoDriveLetter)),
        },
        Platform::Linux => Ok(bash_command("sync "@ + drive.drive_path)),
    }
}

/// Builds the command that flushes what was written to a drive, so that the
/// drive can be removed safely once the command has run.
pub fn write_filesystem_cache(platform: Platform, drive: &DriveInfo) -> (command: Result<
    ShellCommand,
    WizardError,
>)
    ensures
        match command {
            Ok(command) => flush_command(platform, drive@) == Ok::<CommandModel, ErrorModel>(
                command@,
            ),
            Err(error) => flush_command(platform, drive@) == Err::<CommandModel, ErrorModel>(
                error@,
            ),
        },
{
    match platform {
        Platform::Windows => {
            let letter = match drive.get_drive_letter() {
                Some(letter) => letter,
                None => {
                    return Err(WizardError::new(ErrorKind::NoDriveLetter));
                },
            };
            let text = String::from_str("Write-VolumeCache -DriveLetter ").concat(letter.as_str());
            Ok(run_powershell_command(text.as_str()))
        },
        Platform::Linux => {
            let text = String::from_str("sync ").concat(drive.drive_path.as_str());
            Ok(run_bash_command(text.as_str()))
        },
    }
}

/// Judges the run of the command that flushes a drive: a failure is reported
/// as a failure to flush.
pub fn flushed(outcome: Launched) -> (result: Result<(), WizardError>)
    ensures
        match result {
            Ok(()) => judged(outcome) is Ok,
            Err(error) => judged(outcome) matches Err(cause) && error@ == caused(
                ErrorKind::FlushFailed,
                cause,
            ),
        },
{
    match run_command(outcome) {
        Ok(_) => Ok(()),
        Err(cause) => Err(cause.context(ErrorKind::FlushFailed)),
    }
}

} // verus!
