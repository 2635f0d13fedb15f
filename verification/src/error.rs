//! The error that every operation of the installer reports.

use vstd::prelude::*;
use vstd::string::StringExecFns;

verus! {

/// What went wrong. Each kind has one message; some messages quote a detail.
#[derive(Clone, Copy, PartialEq, Eq, Structural, Debug)]
pub enum ErrorKind {
    /// A worker panicked with a text payload, the detail.
    WorkerPanicked,
    /// A worker panicked with a payload that is not text.
    WorkerPanickedUnknown,
    /// A worker returned without leaving a result in its channel.
    ChannelEmpty,
    /// A task was started while another one was still outstanding.
    SlotBusy,
    /// A task was outstanding but there was no worker for it.
    WorkerMissing,
    /// A task delivered a result that its step cannot use.
    UnexpectedResult,
    /// A repository lists no release that is neither a draft nor a prerelease.
    NoStableRelease,
    /// A list of releases has none marked as the latest.
    LatestReleaseNotFound,
    /// A step needs the chosen release and none is stored.
    MissingSoftwareVersion,
    /// A step needs the chosen firmware file and none is stored.
    MissingSelectedFirmware,
    /// A step needs the downloaded archive and none is stored.
    MissingArchivePath,
    /// A step needs the downloaded firmware and none is stored.
    MissingFirmwarePath,
    /// A step needs the chosen drive and none is stored.
    MissingSelectedDrive,
    /// A release has no asset with the name in the detail.
    AssetNotFound,
    /// The repository answered the request for its releases with the status in the detail.
    FetchReleasesFailed,
    /// A download was answered with the status in the detail.
    DownloadFailed,
    /// An operation outside the library failed; the detail is its own message.
    Operation,
    /// A shell command ended unsuccessfully; the detail is what it wrote to its error stream.
    CommandFailed,
    /// The output of a shell command is not valid UTF-8.
    InvalidUtf8,
    /// The output of a shell command is not valid JSON.
    InvalidJson,
    /// Listing the volumes failed; the detail is the cause.
    GetVolumeFailed,
    /// Listing the mounted drives failed; the detail is the cause.
    ListDrivesFailed,
    /// A listed volume has no drive letter.
    MissingDriveLetter,
    /// A listed volume has no label.
    MissingFileSystemLabel,
    /// A drive's path does not begin with a drive letter.
    NoDriveLetter,
    /// Looking up a drive's block device failed; the detail is the cause.
    BlockDeviceLookupFailed,
    /// Unmounting a drive failed; the detail is the cause.
    UnmountFailed,
    /// Making the file system failed; the detail is the cause.
    FormatFailed,
    /// Formatting a volume failed; the detail is the cause.
    FormatVolumeFailed,
    /// Mounting a drive failed; the detail is the cause.
    MountFailed,
    /// Flushing a drive's cache failed; the detail is the cause.
    FlushFailed,
    /// A drive's path has no parent.
    NoParentPath,
    /// Unpacking the archive failed; the detail is the cause.
    ExtractFailed,
    /// A firmware path has no file name.
    NoFileName,
    /// A step needs the team number of the current card and there is none.
    MissingTeamNumber,
    /// A step was asked of an installation that has already failed.
    JobFailed,
    /// An installation was told of an outcome that its current stage does not wait for.
    UnexpectedEvent,
    /// The destination of a download, the detail, has no parent directory.
    NoDownloadParent,
}

/// An error with its kind and a detail text. Where the message of the kind
/// quotes no detail, the detail holds the message of the underlying cause, or
/// nothing.
#[derive(Debug)]
pub struct WizardError {
    pub kind: ErrorKind,
    pub detail: String,
}

/// The mathematical content of a [`WizardError`].
pub ghost struct ErrorModel {
    pub kind: ErrorKind,
    pub detail: Seq<char>,
}

impl View for WizardError {
    type V = ErrorModel;

    open spec fn view(&self) -> ErrorModel {
        ErrorModel { kind: self.kind, detail: self.detail@ }
    }
}

impl DeepView for WizardError {
    type V = ErrorModel;

    open spec fn deep_view(&self) -> ErrorModel {
        self@
    }
}

/// The error of the given kind without a detail.
pub open spec fn plain_error(kind: ErrorKind) -> ErrorModel {
    ErrorModel { kind, detail: Seq::empty() }
}

/// The text shown to the operator for an error of the given kind and detail.
pub open spec fn message_text(kind: ErrorKind, detail: Seq<char>) -> Seq<char> {
    match kind {
        ErrorKind::WorkerPanicked => "Background thread failed: "@ + detail,
        ErrorKind::WorkerPanickedUnknown => "Background thread failed with unknown error type."@,
        ErrorKind::ChannelEmpty => "channel is empty and sending half is closed"@,
        ErrorKind::SlotBusy => "A background task is already running."@,
        ErrorKind::WorkerMissing => "The background task has no worker."@,
        ErrorKind::UnexpectedResult => "The background task returned a result of another kind."@,
        ErrorKind::NoStableRelease => "No stable releases found"@,
        ErrorKind::LatestReleaseNotFound => "Latest release not found"@,
        ErrorKind::MissingSoftwareVersion => "Expected software_version to not be None."@,
        ErrorKind::MissingSelectedFirmware => "Expected selected_firmware to not be None."@,
        ErrorKind::MissingArchivePath => "Expected archive_path to not be None."@,
        ErrorKind::MissingFirmwarePath => "Expected firmware_path to not be None."@,
        ErrorKind::MissingSelectedDrive => "Expected selected_drive to not be None."@,
        ErrorKind::AssetNotFound => "Could not find "@ + detail + " in release assets."@,
        ErrorKind::FetchReleasesFailed => "Failed to fetch releases: "@ + detail,
        ErrorKind::DownloadFailed => "Failed to download file: "@ + detail,
        ErrorKind::Operation => detail,
        ErrorKind::CommandFailed => "Running shell command failed: "@ + detail,
        ErrorKind::InvalidUtf8 => "Command output is not valid UTF-8."@,
        ErrorKind::InvalidJson => "Command output is not valid JSON."@,
        ErrorKind::GetVolumeFailed => "Running Get-Volume failed"@,
        ErrorKind::ListDrivesFailed => "Listing removable drives failed."@,
        ErrorKind::MissingDriveLetter => "Missing field DriveLetter in PowerShell output."@,
        ErrorKind::MissingFileSystemLabel => "Missing field FileSystemLabel in PowerShell output."@,
        ErrorKind::NoDriveLetter => "Could not determine drive letter."@,
        ErrorKind::BlockDeviceLookupFailed => "Failed to look up drive block device."@,
        ErrorKind::UnmountFailed => "Unmounting disk failed."@,
        ErrorKind::FormatFailed => "Formatting disk failed."@,
        ErrorKind::FormatVolumeFailed => "Running Format-Volume failed"@,
        ErrorKind::MountFailed => "Mounting disk failed."@,
        ErrorKind::FlushFailed => "Writing filesystem cache failed"@,
        ErrorKind::NoParentPath => "Failed to get parent path of drive path"@,
        ErrorKind::ExtractFailed => "Failed to extract ramdisk archive."@,
        ErrorKind::NoFileName => "Could not get filename from firmware path."@,
        ErrorKind::MissingTeamNumber => "Expected a team number for the current card."@,
        ErrorKind::JobFailed => "The installation has already failed."@,
        ErrorKind::UnexpectedEvent => "The installation was told of an outcome that it did not wait for."@,
        ErrorKind::NoDownloadParent => "Could not get parent of download destination from: "@ + detail,
    }
}

impl WizardError {
    /// An error of the given kind without a detail.
    pub fn new(kind: ErrorKind) -> (e: WizardError)
        ensures
            e@ == plain_error(kind),
    {
        WizardError { kind, detail: String::new() }
    }

    /// An error of the given kind with a detail text.
    pub fn with_detail(kind: ErrorKind, detail: &str) -> (e: WizardError)
        ensures
            e@ == (ErrorModel { kind, detail: detail@ }),
    {
        WizardError { kind, detail: String::from_str(detail) }
    }

    /// The error of the given kind that was caused by this one: its detail is
    /// this error's message.
    pub fn context(&self, kind: ErrorKind) -> (e: WizardError)
        ensures
            e@ == (ErrorModel { kind, detail: message_text(self.kind, self.detail@) }),
    {
        WizardError { kind, detail: self.message() }
    }

    /// The message for the operator.
    pub fn message(&self) -> (text: String)
        ensures
            text@ == message_text(self.kind, self.detail@),
    {
        match self.kind {
            ErrorKind::WorkerPanicked => String::from_str("Background thread failed: ").concat(self.detail.as_str()),
            ErrorKind::WorkerPanickedUnknown => String::from_str("Background thread failed with unknown error type."),
            ErrorKind::ChannelEmpty => String::from_str("channel is empty and sending half is closed"),
            ErrorKind::SlotBusy => String::from_str("A background task is already running."),
            ErrorKind::WorkerMissing => String::from_str("The background task has no worker."),
            ErrorKind::UnexpectedResult => String::from_str("The background task returned a result of another kind."),
            ErrorKind::NoStableRelease => String::from_str("No stable releases found"),
            ErrorKind::LatestReleaseNotFound => String::from_str("Latest release not found"),
            ErrorKind::MissingSoftwareVersion => String::from_str("Expected software_version to not be None."),
            ErrorKind::MissingSelectedFirmware => String::from_str("Expected selected_firmware to not be None."),
            ErrorKind::MissingArchivePath => String::from_str("Expected archive_path to not be None."),
            ErrorKind::MissingFirmwarePath => String::from_str("Expected firmware_path to not be None."),
            ErrorKind::MissingSelectedDrive => String::from_str("Expected selected_drive to not be None."),
            ErrorKind::AssetNotFound => String::from_str("Could not find ").concat(self.detail.as_str()).concat(" in release assets."),
            ErrorKind::FetchReleasesFailed => String::from_str("Failed to fetch releases: ").concat(self.detail.as_str()),
            ErrorKind::DownloadFailed => String::from_str("Failed to download file: ").concat(self.detail.as_str()),
            ErrorKind::Operation => self.detail.clone(),
            ErrorKind::CommandFailed => String::from_str("Running shell command failed: ").concat(self.detail.as_str()),
            ErrorKind::InvalidUtf8 => String::from_str("Command output is not valid UTF-8."),
            ErrorKind::InvalidJson => String::from_str("Command output is not valid JSON."),
            ErrorKind::GetVolumeFailed => String::from_str("Running Get-Volume failed"),
            ErrorKind::ListDrivesFailed => String::from_str("Listing removable drives failed."),
            ErrorKind::MissingDriveLetter => String::from_str("Missing field DriveLetter in PowerShell output."),
            ErrorKind::MissingFileSystemLabel => String::from_str("Missing field FileSystemLabel in PowerShell output."),
            ErrorKind::NoDriveLetter => String::from_str("Could not determine drive letter."),
            ErrorKind::BlockDeviceLookupFailed => String::from_str("Failed to look up drive block device."),
            ErrorKind::UnmountFailed => String::from_str("Unmounting disk failed."),
            ErrorKind::FormatFailed => String::from_str("Formatting disk failed."),
            ErrorKind::FormatVolumeFailed => String::from_str("Running Format-Volume failed"),
            ErrorKind::MountFailed => String::from_str("Mounting disk failed."),
            ErrorKind::FlushFailed => String::from_str("Writing filesystem cache failed"),
            ErrorKind::NoParentPath => String::from_str("Failed to get parent path of drive path"),
            ErrorKind::ExtractFailed => String::from_str("Failed to extract ramdisk archive."),
            ErrorKind::NoFileName => String::from_str("Could not get filename from firmware path."),
            ErrorKind::MissingTeamNumber => String::from_str("Expected a team number for the current card."),
            ErrorKind::JobFailed => String::from_str("The installation has already failed."),
            ErrorKind::UnexpectedEvent => String::from_str("The installation was told of an outcome that it did not wait for."),
            ErrorKind::NoDownloadParent => String::from_str(
                "Could not get parent of download destination from: ",
            ).concat(self.detail.as_str()),
        }
    }
}

} // verus!
