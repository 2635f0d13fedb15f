//! Downloads, as far as they are decisions: whether the answer to a request
//! is one to keep, and where its content goes.

use crate::error::{ErrorKind, ErrorModel, WizardError};
use crate::paths::{parent_of, parent_path};
use vstd::prelude::*;
use vstd::string::StringExecFns;

verus! {

/// Where the content of a download is written.
#[derive(Debug)]
pub struct FileWrite {
    /// The directory to create first, with all its parents.
    pub directory: String,
    /// The file to write.
    pub path: String,
}

/// The mathematical content of a [`FileWrite`].
pub ghost struct FileWriteModel {
    pub directory: Seq<char>,
    pub path: Seq<char>,
}

impl View for FileWrite {
    type V = FileWriteModel;

    open spec fn view(&self) -> FileWriteModel {
        FileWriteModel { directory: self.directory@, path: self.path@ }
    }
}

/// What the answer to a download request leads to. An answer whose status is
/// not a success is an error that quotes the status. Otherwise the content
/// goes to the destination, in the directory that is the destination's
/// parent; a destination without a parent is an error.
pub open spec fn download_outcome(dest_path: Seq<char>, success: bool, status: Seq<char>)
    -> Result<FileWriteModel, ErrorModel> {
    if !success {
        Err(ErrorModel { kind: ErrorKind::DownloadFailed, detail: status })
    } else {
        match parent_path(dest_path) {
            Some(directory) => Ok(FileWriteModel { directory, path: dest_path }),
            None => Err(ErrorModel { kind: ErrorKind::NoDownloadParent, detail: dest_path }),
        }
    }
}

/// Decides what to do with the answer to a download request. `success` and
/// `status` are those of the answer; `dest_path` is where the content is
/// wanted.
pub fn download_file(dest_path: &str, success: bool, status: &str) -> (result: Result<
    FileWrite,
    WizardError,
>)
    ensures
        match result {
            Ok(write) => download_outcome(dest_path@, success, status@) == Ok::<
                FileWriteModel,
                ErrorModel,
            >(write@),
            Err(error) => download_outcome(dest_path@, success, status@) == Err::<
                FileWriteModel,
                ErrorModel,
            >(error@),
        },
{
    if !success {
        return Err(WizardError::with_detail(ErrorKind::DownloadFailed, status));
    }
    match parent_of(dest_path) {
        Some(directory) => Ok(FileWrite { directory, path: String::from_str(dest_path) }),
        None => Err(WizardError::with_detail(ErrorKind::NoDownloadParent, dest_path)),
    }
}

} // verus!
