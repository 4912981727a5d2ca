//! Configuration of the file-management utilities. The application reads
//! these from its configuration file and hands them in as plain values.

use vstd::prelude::*;

verus! {

/// Which files an operation touches.
#[derive(Debug, Clone, PartialEq)]
pub struct Filters {
    /// Indicate the formats of files that will be chosen
    pub formats: Option<Vec<String>>,
    /// Size filter, formatted as "> 100M", "<=  10G" or "== 5K".
    /// The units available are "B", "K", "M", "G", "T"
    pub size: Option<String>,
}

/// Options for the copy action.
#[derive(Debug, Clone, PartialEq)]
pub struct CopyOptions {
    /// Source address of the folder or file.
    pub from: String,
    /// Destination address of the folder or file.
    pub to: String,
    /// If value is set to true, also copy directories.
    pub keep_parent_dir: bool,
    /// The filters, only files satisfied the condition in filters will be copied.
    pub filters: Filters,
}

/// Options for the move action.
#[derive(Debug, Clone, PartialEq)]
pub struct MoveOptions {
    /// Source address of the folder or file.
    pub from: String,
    /// Destination address of the folder or file.
    pub to: String,
    /// If value is set to false, only files will be moved, directories will be deleted.
    pub keep_parent_dir: bool,
    /// The filters, only files satisfied the condition in filters will be moved.
    pub filters: Filters,
}

/// Options for the delete action.
#[derive(Debug, Clone, PartialEq)]
pub struct DeleteOptions {
    /// Path of directory or file to delete.
    pub path: String,
    /// The filters, only files satisfied the condition in filters will be deleted.
    pub filters: Filters,
}

/// The three operations' options together, as the application's
/// configuration file holds them.
#[derive(Debug, Clone, PartialEq)]
pub struct Config {
    /// Options for move action
    pub mv: MoveOptions,
    /// Options for copy action
    pub cp: CopyOptions,
    /// Options for delete action
    pub del: DeleteOptions,
}

} // verus!
