//! Decision logic of a step-by-step installer for Gizmo software.
//!
//! The installer walks an operator through choosing a release, downloading it
//! and writing it to a removable drive. Everything slow runs in a background
//! worker; this library decides, frame by frame, when a worker is started,
//! what its result means and which step comes next. It touches neither the
//! screen nor the network nor a drive: the caller does, and tells the library
//! what it saw.
//!
//! - [`task`] and [`threads`]: the slot for the one outstanding task, and what
//!   the end of a worker means.
//! - [`pages`]: the three installation flows and the steps they share.
//! - [`app`]: the launcher, the open flow and the error that stops it.
//! - [`github`], [`file_download`]: releases, their assets and where downloads
//!   go.
//! - [`drive_management`], [`install`], [`shell`]: listing, formatting and
//!   flushing drives as sequences of shell commands.
//! - [`error`], [`text`], [`paths`], [`json`]: what the others are built on.

pub mod app;
pub mod drive_management;
pub mod error;
pub mod file_download;
pub mod github;
pub mod install;
pub mod json;
pub mod pages;
pub mod paths;
pub mod shell;
pub mod task;
pub mod text;
pub mod threads;
