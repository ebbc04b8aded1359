//! Checks on the backup folder and the database file, given whether the file system found
//! them.

use vstd::prelude::*;

verus! {

/// Why a location cannot be used.
#[derive(Debug, Clone, PartialEq, Eq)]
pub enum LocationError {
    /// Nothing exists at the location; the message says what is missing.
    NotFound { message: String },
    /// Something exists at the location but it is not a directory; the message names it.
    NotADirectory { message: String },
    /// Whether anything exists at the location could not be determined; the file system's own
    /// error explains why.
    Undetermined,
}

/// The message for a missing backup folder.
pub const MISSING_DIRECTORY: &'static str = "Directory does not exist: ";

/// The message for a backup location that is not a directory.
pub const NOT_A_DIRECTORY: &'static str = "Not a directory: ";

/// The message for a missing database file.
pub const MISSING_DATABASE: &'static str = "Database file does not exist";

/// The outcome of a location check: usable when found, `NotFound` with the message `missing`
/// when not found, `Undetermined` when the file system could not tell.
pub open spec fn location_checked(
    found: Option<bool>,
    missing: Seq<char>,
    res: Result<(), LocationError>,
) -> bool {
    match found {
        Some(true) => res is Ok,
        Some(false) => match res {
            Err(LocationError::NotFound { message }) => message@ == missing,
            _ => false,
        },
        None => res == Err::<(), LocationError>(LocationError::Undetermined),
    }
}

fn not_found(message: String) -> (res: Result<(), LocationError>)
    ensures
        res == Err::<(), LocationError>(LocationError::NotFound { message }),
{
    let e = LocationError::NotFound { message };
    Err(e)
}

/// The outcome of checking the backup folder: usable when it exists and is a directory;
/// `NotFound` when nothing is there; `NotADirectory` when something else is there;
/// `Undetermined` when the file system could not tell.
pub open spec fn save_location_checked(
    dir_path: Seq<char>,
    found: Option<bool>,
    is_dir: bool,
    res: Result<(), LocationError>,
) -> bool {
    match found {
        Some(true) => if is_dir {
            res is Ok
        } else {
            match res {
                Err(LocationError::NotADirectory { message }) => message@ == NOT_A_DIRECTORY@
                    + dir_path,
                _ => false,
            }
        },
        _ => location_checked(found, MISSING_DIRECTORY@ + dir_path, res),
    }
}

fn not_a_directory(message: String) -> (res: Result<(), LocationError>)
    ensures
        res == Err::<(), LocationError>(LocationError::NotADirectory { message }),
{
    let e = LocationError::NotADirectory { message };
    Err(e)
}

/// Checks that the backup folder exists and is a directory, so that backups can be written
/// into it. `found` is what the file system answered: whether `dir_path` exists, or `None` if
/// it could not tell; `is_dir` whether what is there (following symlinks) is a directory.
pub fn validate_save_location(dir_path: &str, found: Option<bool>, is_dir: bool) -> (res: Result<
    (),
    LocationError,
>)
    ensures
        save_location_checked(dir_path@, found, is_dir, res),
{
    match found {
        Some(true) => if is_dir {
            Ok(())
        } else {
            not_a_directory(String::from_str(NOT_A_DIRECTORY).concat(dir_path))
        },
        Some(false) => not_found(String::from_str(MISSING_DIRECTORY).concat(dir_path)),
        None => Err(LocationError::Undetermined),
    }
}

/// Checks that the database file exists. `found` is what the file system answered: whether
/// the file exists, or `None` if it could not tell.
pub fn validate_db_location(found: Option<bool>) -> (res: Result<(), LocationError>)
    ensures
        location_checked(found, MISSING_DATABASE@, res),
{
    match found {
        Some(true) => Ok(()),
        Some(false) => not_found(String::from_str(MISSING_DATABASE)),
        None => Err(LocationError::Undetermined),
    }
}

} // verus!
