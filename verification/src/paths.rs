//! File-system paths as opaque values, and the platform's per-application
//! directories. Which directories the platform reports depends on the
//! operating system and the environment, so nothing is claimed about which
//! they are; what is stated is how a path is derived from them.

use vstd::prelude::*;

verus! {

/// `std::path::PathBuf`, carried through the library as an opaque value.
#[verifier::external_type_specification]
#[verifier::external_body]
pub struct ExPathBuf(std::path::PathBuf);

/// `directories::ProjectDirs`, the platform directories of one application.
#[verifier::external_type_specification]
#[verifier::external_body]
pub struct ExProjectDirs(directories::ProjectDirs);

/// Resolves the platform directories of an application with
/// `directories::ProjectDirs::from("", "", application)`; `None` when the
/// platform has no home directory to derive them from.
#[verifier::external_body]
pub(crate) fn project_dirs(application: &str) -> Option<directories::ProjectDirs> {
    directories::ProjectDirs::from("", "", application)
}

/// The local configuration directory that a set of platform directories
/// holds (`ProjectDirs::config_local_dir`).
pub uninterp spec fn config_local_of(dirs: directories::ProjectDirs) -> std::path::PathBuf;

/// The local data directory that a set of platform directories holds
/// (`ProjectDirs::data_local_dir`).
pub uninterp spec fn data_local_of(dirs: directories::ProjectDirs) -> std::path::PathBuf;

/// The path `Path::join` makes of a directory and a relative name.
pub uninterp spec fn joined_path(dir: std::path::PathBuf, name: Seq<char>) -> std::path::PathBuf;

/// The application's local configuration directory
/// (`ProjectDirs::config_local_dir`), as an owned path. The directory is a
/// field that `ProjectDirs::from` filled in, so the same value always gives
/// the same path.
#[verifier::external_body]
pub(crate) fn config_local_dir(dirs: &directories::ProjectDirs) -> (dir: std::path::PathBuf)
    ensures
        dir == config_local_of(*dirs),
{
    dirs.config_local_dir().to_path_buf()
}

/// The application's local data directory (`ProjectDirs::data_local_dir`),
/// as an owned path. The directory is a field that `ProjectDirs::from` filled
/// in, so the same value always gives the same path.
#[verifier::external_body]
pub(crate) fn data_local_dir(dirs: &directories::ProjectDirs) -> (dir: std::path::PathBuf)
    ensures
        dir == data_local_of(*dirs),
{
    dirs.data_local_dir().to_path_buf()
}

/// A copy of a path (`PathBuf::clone`); the copy names the same path.
#[verifier::external_body]
pub(crate) fn clone_path(path: &std::path::PathBuf) -> (copy: std::path::PathBuf)
    ensures
        copy == *path,
{
    path.clone()
}

/// `dir` with `name` adjoined (`Path::join`), which depends on the two
/// arguments alone.
#[verifier::external_body]
pub(crate) fn join_path(dir: &std::path::PathBuf, name: &str) -> (joined: std::path::PathBuf)
    ensures
        joined == joined_path(*dir, name@),
{
    dir.join(name)
}

} // verus!
