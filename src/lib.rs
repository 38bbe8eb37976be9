//! Timekeep: tracking time spent on projects and tasks.
//!
//! The library holds the task lifecycle (an open task that is closed into a
//! finished one), the encoding of tasks into stored records, range queries over
//! those records and the calendar windows used to view them. File and database
//! access is left to the caller.
use vstd::prelude::*;

pub mod cli;
pub mod database;
pub mod error;
pub mod format;
pub mod tasks;
pub mod time;
pub mod view;

pub use tasks::CurrentTask;
pub use tasks::Task;

use std::path::{Path, PathBuf};

verus! {

/// Data directory name.
pub const DATA_DIRECTORY: &'static str = "timekeep";

/// Current activity file name.
pub const CURRENT_ACTIVITY_FILE: &'static str = "current.json";

/// Database file name.
pub const DATABASE_FILE: &'static str = "timekeep.db";

#[verifier::external_type_specification]
#[verifier::external_body]
pub struct ExPathBuf(PathBuf);

#[verifier::external_type_specification]
#[verifier::external_body]
pub struct ExPath(Path);

/// Relies on `Path::join`: `base` with `name` adjoined, in the platform's
/// own way. Nothing more is stated of it.
#[verifier::external_body]
fn join(base: &Path, name: &str) -> (r: PathBuf) {
    base.join(name)
}

/// Relies on `PathBuf::as_path`: the path that `p` holds, borrowed.
#[verifier::external_body]
fn as_path(p: &PathBuf) -> (r: &Path) {
    p.as_path()
}

/// File paths for the program's persistent storage.
pub struct DataFiles {
    current_file: PathBuf,
    database_file: PathBuf,
    data_folder: PathBuf,
}

impl DataFiles {
    /// Paths under `base_folder`, with the default sub-folder and file names.
    pub fn new(base_folder: &Path) -> (r: DataFiles) {
        DataFiles::custom(base_folder, DATA_DIRECTORY, CURRENT_ACTIVITY_FILE, DATABASE_FILE)
    }

    /// Paths under `base_folder`, with the given sub-folder and file names:
    /// the data folder is `base_folder` joined with `data_directory`, and both
    /// files lie in the data folder.
    pub fn custom(
        base_folder: &Path,
        data_directory: &str,
        current_activity_file: &str,
        database_file: &str,
    ) -> (r: DataFiles) {
        let data_folder = join(base_folder, data_directory);
        DataFiles {
            current_file: join(as_path(&data_folder), current_activity_file),
            database_file: join(as_path(&data_folder), database_file),
            data_folder,
        }
    }

    pub closed spec fn spec_current_file(&self) -> PathBuf {
        self.current_file
    }

    pub closed spec fn spec_database_file(&self) -> PathBuf {
        self.database_file
    }

    pub closed spec fn spec_data_folder(&self) -> PathBuf {
        self.data_folder
    }

    /// File that stores the open task.
    pub fn current_file(&self) -> (r: &PathBuf)
        ensures
            *r == self.spec_current_file(),
    {
        &self.current_file
    }

    /// Database that stores the finished tasks.
    pub fn database_file(&self) -> (r: &PathBuf)
        ensures
            *r == self.spec_database_file(),
    {
        &self.database_file
    }

    /// Folder that holds all persistent storage.
    pub fn data_folder(&self) -> (r: &PathBuf)
        ensures
            *r == self.spec_data_folder(),
    {
        &self.data_folder
    }
}

} // verus!
