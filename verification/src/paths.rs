//! Where the configuration file stands. The library decides from what was
//! found in the current directory and above it; looking at the disk is
//! left to the caller.

use vstd::prelude::*;
use vstd::string::*;
use crate::errors::{ConfigPathError, IoFailure, IoFailureKind};
use crate::ConfigFileType;

verus! {

/// What one directory holds.
#[derive(Debug, Clone, Copy, PartialEq, Eq, Structural)]
pub struct Directory {
    /// It holds an `esbuild.config.json`.
    pub has_config: bool,
    /// It holds a `package.json`.
    pub has_package_json: bool,
}

/// Where a configuration file stands.
#[derive(Debug, Clone, Copy, PartialEq, Eq, Structural)]
pub enum Place {
    /// At the path that the caller gave.
    Given,
    /// In the directory so many steps above the current one; none is the
    /// current directory itself.
    Above(usize),
}

/// The name of the file of a configuration of its own.
pub fn config_file_name() -> (r: &'static str)
    ensures
        r@ == "esbuild.config.json"@,
{
    "esbuild.config.json"
}

/// `root` is the nearest of the directories that holds a `package.json`.
pub open spec fn is_package_root(dirs: Seq<Directory>, root: int) -> bool {
    &&& 0 <= root < dirs.len()
    &&& dirs[root].has_package_json
    &&& forall|j: int| 0 <= j < root ==> !(#[trigger] dirs[j]).has_package_json
}

/// None of the directories holds a `package.json`.
pub open spec fn no_package_root(dirs: Seq<Directory>) -> bool {
    forall|j: int| 0 <= j < dirs.len() ==> !(#[trigger] dirs[j]).has_package_json
}

/// The current directory holds a configuration file.
pub open spec fn has_local_config(dirs: Seq<Directory>) -> bool {
    dirs.len() > 0 && dirs[0].has_config
}

/// The failure to find a file, with its message.
pub open spec fn not_found(message: Seq<char>, e: ConfigPathError) -> bool {
    e matches ConfigPathError::Io(failure) && failure.kind == IoFailureKind::NotFound
        && failure.message@ == message
}

fn not_found_error(message: &str) -> (r: ConfigPathError)
    ensures
        not_found(message@, r),
{
    ConfigPathError::Io(
        IoFailure { kind: IoFailureKind::NotFound, message: String::from_str(message) },
    )
}

/// The nearest directory that holds a `package.json`. The directories run
/// from the current one upwards.
pub fn pkg_root_path(dirs: &Vec<Directory>) -> (r: Result<usize, ConfigPathError>)
    ensures
        match r {
            Ok(root) => is_package_root(dirs@, root as int),
            Err(e) => no_package_root(dirs@) && not_found("No package.json found."@, e),
        },
{
    let mut i: usize = 0;
    while i < dirs.len()
        invariant
            i <= dirs.len(),
            forall|j: int| 0 <= j < i ==> !(#[trigger] dirs@[j]).has_package_json,
        decreases dirs.len() - i,
    {
        if dirs[i].has_package_json {
            return Ok(i);
        }
        i += 1;
    }
    Err(not_found_error("No package.json found."))
}

/// What `detect_config_path` finds in `dirs`, if anything: the
/// configuration file of the current directory; else that of the nearest
/// directory with a `package.json`; else that `package.json` itself.
pub open spec fn detected(dirs: Seq<Directory>, place: Place, file_type: ConfigFileType) -> bool {
    if has_local_config(dirs) {
        place == Place::Above(0) && file_type == ConfigFileType::ConfigJson
    } else {
        &&& place matches Place::Above(root)
        &&& is_package_root(dirs, root as int)
        &&& file_type == if dirs[root as int].has_config {
            ConfigFileType::ConfigJson
        } else {
            ConfigFileType::PackageJson
        }
    }
}

/// Finds the configuration file without a path from the caller. The
/// directories run from the current one upwards.
pub fn detect_config_path(dirs: &Vec<Directory>) -> (r: Result<
    (Place, ConfigFileType),
    ConfigPathError,
>)
    ensures
        match r {
            Ok((place, file_type)) => detected(dirs@, place, file_type),
            Err(e) => {
                &&& !has_local_config(dirs@)
                &&& no_package_root(dirs@)
                &&& not_found(
                    "No esbuild.config.json found in the current directory, and no project root found."@,
                    e,
                )
            },
        },
{
    if dirs.len() > 0 && dirs[0].has_config {
        return Ok((Place::Above(0), ConfigFileType::ConfigJson));
    }
    match pkg_root_path(dirs) {
        Ok(root) => {
            if dirs[root].has_config {
                Ok((Place::Above(root), ConfigFileType::ConfigJson))
            } else {
                Ok((Place::Above(root), ConfigFileType::PackageJson))
            }
        },
        Err(_) => Err(
            not_found_error(
                "No esbuild.config.json found in the current directory, and no project root found.",
            ),
        ),
    }
}

/// Finds the configuration file: at the path that the caller gave, which
/// must exist, or else where `detect_config_path` finds it.
/// `given_exists` says whether a file stands at the given path.
pub fn config_path(path: Option<&String>, given_exists: bool, dirs: &Vec<Directory>) -> (r: Result<
    (Place, ConfigFileType),
    ConfigPathError,
>)
    ensures
        match path {
            Some(_) => if given_exists {
                r == Ok::<(Place, ConfigFileType), ConfigPathError>(
                    (Place::Given, ConfigFileType::ConfigJson),
                )
            } else {
                r matches Err(e) && not_found("The provided file doesn’t seem to exist."@, e)
            },
            None => match r {
                Ok((place, file_type)) => detected(dirs@, place, file_type),
                Err(e) => {
                    &&& !has_local_config(dirs@)
                    &&& no_package_root(dirs@)
                    &&& not_found(
                        "No esbuild.config.json found in the current directory, and no project root found."@,
                        e,
                    )
                },
            },
        },
{
    match path {
        Some(_) => {
            if given_exists {
                Ok((Place::Given, ConfigFileType::ConfigJson))
            } else {
                Err(not_found_error("The provided file doesn’t seem to exist."))
            }
        },
        None => detect_config_path(dirs),
    }
}

} // verus!
