//! Decisions of an interactive installer for a graphics-mod runtime: which
//! build the user chose, which published package or CI artifact answers that
//! choice, which steps the installation takes, and which files are cleaned up
//! or moved afterwards. Network, archive and file-system work happens outside
//! this crate; here it is planned and checked.
pub mod cleanup;
pub mod display;
pub mod install;
pub mod json;
pub mod listing;
pub mod manifest;
pub mod reorganize;
pub mod resolve;
pub mod selection;
pub mod text;
